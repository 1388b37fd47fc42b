//! What holds of every step on the monitor, whoever takes it.

use vstd::prelude::*;
use crate::gate::{steps, GateState};
use crate::protocol::{Action, CallState, Event, Phase};
use crate::signal::{GateError, Wake};

verus! {

/// No action breaks the monitor: a thread stays off the wait queue while it
/// holds the lock, whatever is asked for and by whom.
pub proof fn law_effect_keeps_wf(pre: GateState, tid: u64, action: Action, post: GateState)
    requires
        pre.wf(),
        pre.effect(tid, action, post),
    ensures
        post.wf(),
{
}

/// Nor does an interruption.
pub proof fn law_interrupt_keeps_wf(pre: GateState, tid: u64)
    requires
        pre.wf(),
    ensures
        pre.interrupt(tid).wf(),
{
}

/// The flag is read and written under the lock: an action that changes the
/// flag, or that reports its value, was asked for by the lock's holder; and
/// the value reported is the one that the flag holds.
pub proof fn law_flag_under_lock(pre: GateState, tid: u64, action: Action, post: GateState)
    requires
        pre.effect(tid, action, post),
    ensures
        post.flag != pre.flag ==> pre.holds(tid) && action == Action::Store(post.flag),
        pre.answer(tid, action) matches Some(Event::Flag(value)) ==> pre.holds(tid) && value
            == pre.flag && action == Action::Observe,
{
}

/// The lock has one holder at a time: while one thread holds it, no other
/// thread's attempt to take it succeeds, be it at the start of a call or at
/// the end of a wait.
pub proof fn law_one_holder(pre: GateState, holder: u64, tid: u64, action: Action, post: GateState)
    requires
        pre.holds(holder),
        tid != holder,
        pre.effect(tid, action, post),
    ensures
        post.holds(holder),
        !post.holds(tid),
        post.flag == pre.flag,
{
}

/// Waking is idempotent. With nobody on the wait queue, a notification of
/// one, a notification of all and a release of the waiters, one after the
/// other, leave the monitor exactly as it was; so whoever waits afterwards is
/// queued as on an untouched monitor.
pub proof fn law_idle_wake_is_noop(
    gate: GateState,
    tid: u64,
    first: GateState,
    second: GateState,
    third: GateState,
)
    requires
        gate.waiters.is_empty(),
        gate.effect(tid, Action::NotifyOne, first),
        first.effect(tid, Action::NotifyAll, second),
        second.effect(tid, Action::ReleaseWaiters, third),
    ensures
        first == gate,
        second == gate,
        third == gate,
        gate.answer(tid, Action::NotifyOne) == Some(Event::Done),
        first.answer(tid, Action::NotifyAll) == Some(Event::Done),
        second.answer(tid, Action::ReleaseWaiters) == Some(Event::Done),
        forall|sleeper: u64| third.parked(sleeper) == gate.parked(sleeper),
{
}

/// After the three wake-ups in a row nobody is left on the queue, however
/// many were there and whichever of them the first one woke; nothing else of
/// the monitor has changed.
pub proof fn law_wake_empties_queue(
    gate: GateState,
    tid: u64,
    first: GateState,
    second: GateState,
    third: GateState,
)
    requires
        gate.effect(tid, Action::NotifyOne, first),
        first.effect(tid, Action::NotifyAll, second),
        second.effect(tid, Action::ReleaseWaiters, third),
    ensures
        third == gate.drained(),
{
}

/// A release of the waiters can be repeated: the second one finds nothing to
/// do.
pub proof fn law_release_is_idempotent(
    gate: GateState,
    tid: u64,
    once: GateState,
    twice: GateState,
)
    requires
        gate.effect(tid, Action::ReleaseWaiters, once),
        once.effect(tid, Action::ReleaseWaiters, twice),
    ensures
        once.waiters.is_empty(),
        twice == once,
{
}

/// A read with an empty destination, or at a nonzero offset, returns 0 at
/// once: it is finished as it begins, asks for no action, and no step of it
/// touches the monitor, whatever the flag holds.
pub proof fn law_short_circuit(
    dest_len: usize,
    offset: u64,
    pre: GateState,
    tid: u64,
    post: GateState,
    next: CallState,
)
    requires
        dest_len == 0 || offset != 0,
        steps(pre, tid, CallState::read(dest_len, offset), post, next),
    ensures
        CallState::read(dest_len, offset).result() == Some(Ok::<usize, GateError>(0)),
        CallState::read(dest_len, offset).action() is None,
        post == pre,
        next == CallState::read(dest_len, offset),
{
}

/// Interruption is safe. A read sleeps, on a clear monitor or on any other,
/// and an interruption from outside reaches it. The interruption takes the
/// thread off the wait queue and touches neither the flag nor the lock. The
/// read then fails with the interruption: while the lock is busy it waits
/// for it and changes nothing; once the lock is free it takes it, to end
/// the wait, and gives it up at once. The flag it leaves as it found it, and
/// the lock free for the next caller.
pub proof fn law_interrupted_read(
    gate: GateState,
    tid: u64,
    call: CallState,
    held: GateState,
    leaving: CallState,
    after: GateState,
    ended: CallState,
)
    requires
        gate.wf(),
        gate.waiters.contains(tid),
        call.reads,
        call.phase == Phase::Wait,
        steps(gate.interrupt(tid), tid, call, held, leaving),
        steps(held, tid, leaving, after, ended),
    ensures
        gate.interrupt(tid).flag == gate.flag,
        gate.interrupt(tid).holder == gate.holder,
        gate.interrupt(tid).waiters == gate.waiters.remove(tid),
        gate.holder is Some ==> held == gate.interrupt(tid) && leaving == call,
        gate.holder is None ==> {
            &&& held.holds(tid)
            &&& held.flag == gate.flag
            &&& leaving.action() == Some(Action::Release)
            &&& ended.result() == Some(Err::<usize, GateError>(GateError::Interrupted))
            &&& after.flag == gate.flag
            &&& after.holder is None
            &&& after.waiters == gate.waiters.remove(tid)
            &&& after.interrupted == gate.interrupted.remove(tid)
            &&& forall|next: u64| !after.waiters.contains(next) ==> after.acquirable(next)
        },
{
}

/// An interruption that reaches a thread that does not sleep is lost.
pub proof fn law_interruption_of_the_awake_is_lost(gate: GateState, tid: u64)
    requires
        !gate.waiters.contains(tid),
    ensures
        gate.interrupt(tid) == gate,
{
}

/// What other threads do neither wakes an interrupted thread a second time
/// nor makes its interruption go away.
pub proof fn law_interruption_stays(
    pre: GateState,
    tid: u64,
    other: u64,
    action: Action,
    post: GateState,
)
    requires
        other != tid,
        !pre.waiters.contains(tid),
        pre.interrupted.contains(tid),
        pre.effect(other, action, post),
    ensures
        !post.waiters.contains(tid),
        post.interrupted.contains(tid),
{
}

/// Nor does an interruption of another thread, or a second one of the same.
pub proof fn law_interruption_stays_under_interrupt(pre: GateState, tid: u64, hit: u64)
    requires
        !pre.waiters.contains(tid),
        pre.interrupted.contains(tid),
    ensures
        !pre.interrupt(hit).waiters.contains(tid),
        pre.interrupt(hit).interrupted.contains(tid),
{
}

/// The same holds however long after the interruption the reader gets to
/// run, and whatever the flag holds by then: the first step that finds the
/// lock free ends the wait, and the next one the call.
pub proof fn law_interrupted_wait_ends(
    gate: GateState,
    tid: u64,
    call: CallState,
    held: GateState,
    leaving: CallState,
    after: GateState,
    ended: CallState,
)
    requires
        !gate.holds(tid),
        !gate.waiters.contains(tid),
        gate.interrupted.contains(tid),
        call.reads,
        call.phase == Phase::Wait,
        steps(gate, tid, call, held, leaving),
        steps(held, tid, leaving, after, ended),
    ensures
        gate.holder is Some ==> held == gate && leaving == call,
        gate.holder is None ==> {
            &&& held == gate.resumed(tid)
            &&& leaving.action() == Some(Action::Release)
            &&& ended.result() == Some(Err::<usize, GateError>(GateError::Interrupted))
            &&& after.flag == gate.flag
            &&& after.holder is None
            &&& after.waiters == gate.waiters
            &&& after.interrupted == gate.interrupted.remove(tid)
            &&& forall|next: u64| !after.waiters.contains(next) ==> after.acquirable(next)
        },
{
}

/// A reader that is woken while the flag is clear goes back to sleep: it
/// takes the lock again, looks at the flag, and waits once more. So a waiter
/// may be woken at any time, and too many may be woken, without harm.
pub proof fn law_needless_wake_sleeps_again(
    gate: GateState,
    tid: u64,
    call: CallState,
    locked: GateState,
    looking: CallState,
    seen: GateState,
    waiting: CallState,
    asleep: GateState,
    sleeping: CallState,
)
    requires
        !gate.flag,
        gate.acquirable(tid),
        !gate.interrupted.contains(tid),
        call.phase == Phase::Wait,
        steps(gate, tid, call, locked, looking),
        steps(locked, tid, looking, seen, waiting),
        steps(seen, tid, waiting, asleep, sleeping),
    ensures
        looking.action() == Some(Action::Observe),
        locked.holds(tid),
        sleeping == call,
        asleep == gate.parked(tid),
        asleep.waiters.contains(tid),
        !asleep.flag,
{
}

/// Every answer brings a call nearer to its end, but for one: the flag was
/// clear when a read looked, and the read has to wait. So a call returns
/// after a bounded number of steps, counted from its start or from its last
/// sleep.
pub proof fn law_answer_brings_end_nearer(call: CallState, event: Event)
    requires
        call.accepts(event),
        !(call.phase == Phase::Observe && event == Event::Flag(false)),
    ensures
        call.advance(event).remaining() < call.remaining(),
{
}

/// A report that does not answer the pending action is ignored, and nothing
/// moves a call that has returned.
pub proof fn law_unfit_event_is_ignored(call: CallState, event: Event)
    requires
        !call.accepts(event),
    ensures
        call.advance(event) == call,
{
}

/// The calls stay among the states that a call can be in. A write never
/// looks at the flag, never waits and never fails; a read returns 0 or
/// fails with the interruption.
pub proof fn law_advance_keeps_wf(call: CallState, event: Event)
    requires
        call.wf(),
    ensures
        call.advance(event).wf(),
        call.advance(event).reads == call.reads,
        !call.reads ==> call.advance(event).outcome == call.outcome,
        call.advance(event).outcome != call.outcome ==> call.phase == Phase::Wait && event
            == Event::Woken(Wake::Interrupted),
{
}

} // verus!
