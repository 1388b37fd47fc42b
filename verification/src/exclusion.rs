//! Mutual exclusion: in every execution the flag is touched under the lock,
//! by one thread at a time.

use vstd::prelude::*;
use crate::gate::{steps, GateState};
use crate::protocol::{Action, CallState, Phase};
use crate::world::{execution, Move, World};

verus! {

/// Whether the call of thread `tid` and the monitor agree on where the thread
/// stands: it holds the lock exactly while its call is inside the critical
/// section, and it is on the wait queue, or on its way back from there, only
/// while its call waits. A read that is about to clear the flag has seen it
/// set, and the flag still is; a read that is about to go to sleep has seen
/// it clear, and the flag still is.
pub open spec fn coherent(gate: GateState, tid: u64, call: CallState) -> bool {
    &&& call.wf()
    &&& call.phase != Phase::Wait ==> {
        &&& gate.holds(tid) <==> call.inside()
        &&& !gate.waiters.contains(tid)
        &&& !gate.interrupted.contains(tid)
    }
    &&& call.reads && call.phase == Phase::Store ==> gate.flag
    &&& call.phase == Phase::Wait && gate.holds(tid) ==> !gate.flag
}

/// What every execution keeps: the monitor is well formed, each call agrees
/// with it, and whoever has to do with the monitor is in a call.
pub open spec fn orderly(world: World) -> bool {
    &&& world.gate.wf()
    &&& forall|tid: u64| #[trigger]
        world.calls.dom().contains(tid) ==> coherent(world.gate, tid, world.calls[tid])
    &&& forall|tid: u64| engaged(world.gate, tid) ==> #[trigger] world.calls.dom().contains(tid)
}

/// A call that begins on a monitor that its thread has nothing to do with
/// agrees with the monitor.
pub proof fn law_fresh_call_is_coherent(gate: GateState, tid: u64, dest_len: usize, offset: u64, len: usize)
    requires
        !gate.holds(tid),
        !gate.waiters.contains(tid),
        !gate.interrupted.contains(tid),
    ensures
        coherent(gate, tid, CallState::read(dest_len, offset)),
        coherent(gate, tid, CallState::write(len)),
{
}

/// A call that agrees with the monitor still does after a step of its own.
pub proof fn law_own_step_keeps_coherence(
    pre: GateState,
    tid: u64,
    call: CallState,
    post: GateState,
    next: CallState,
)
    requires
        pre.wf(),
        coherent(pre, tid, call),
        steps(pre, tid, call, post, next),
    ensures
        post.wf(),
        coherent(post, tid, next),
{
}

/// A call that agrees with the monitor still does after a step of another
/// thread's call.
pub proof fn law_other_step_keeps_coherence(
    pre: GateState,
    tid: u64,
    call: CallState,
    other: u64,
    stepping: CallState,
    post: GateState,
    next: CallState,
)
    requires
        pre.wf(),
        tid != other,
        coherent(pre, tid, call),
        coherent(pre, other, stepping),
        steps(pre, other, stepping, post, next),
    ensures
        coherent(post, tid, call),
{
}

/// Whether `tid` has to do with the monitor: it holds the lock, sleeps, or
/// is on its way back from an interrupted sleep.
pub open spec fn engaged(gate: GateState, tid: u64) -> bool {
    gate.holds(tid) || gate.waiters.contains(tid) || gate.interrupted.contains(tid)
}

/// No move takes an orderly world out of order.
pub proof fn law_move_keeps_order(pre: World, mv: Move, post: World)
    requires
        orderly(pre),
        pre.moves(mv, post),
    ensures
        orderly(post),
{
    match mv {
        Move::Step(stepping) => {
            let call = pre.calls[stepping];
            let next = post.calls[stepping];
            law_own_step_keeps_coherence(pre.gate, stepping, call, post.gate, next);
            assert forall|tid: u64| #[trigger] post.calls.dom().contains(tid) implies coherent(
                post.gate,
                tid,
                post.calls[tid],
            ) by {
                if tid != stepping {
                    law_other_step_keeps_coherence(
                        pre.gate,
                        tid,
                        pre.calls[tid],
                        stepping,
                        call,
                        post.gate,
                        next,
                    );
                }
            }
            assert forall|tid: u64| engaged(post.gate, tid) implies #[trigger] post.calls.dom().contains(
                tid,
            ) by {
                if tid != stepping {
                    assert(engaged(pre.gate, tid));
                }
            }
        },
        Move::Interrupt(hit) => {
            assert forall|tid: u64| #[trigger] post.calls.dom().contains(tid) implies coherent(
                post.gate,
                tid,
                post.calls[tid],
            ) by {}
            assert forall|tid: u64| engaged(post.gate, tid) implies #[trigger] post.calls.dom().contains(
                tid,
            ) by {
                assert(engaged(pre.gate, tid));
            }
        },
        Move::Read { tid: caller, dest_len, offset } => {
            lemma_begin_keeps_order(pre, caller, CallState::read(dest_len, offset), post);
        },
        Move::Write { tid: caller, len } => {
            lemma_begin_keeps_order(pre, caller, CallState::write(len), post);
        },
    }
}

proof fn lemma_begin_keeps_order(pre: World, caller: u64, fresh: CallState, post: World)
    requires
        orderly(pre),
        pre.idle(caller),
        fresh.wf(),
        !fresh.inside(),
        fresh.phase != Phase::Wait,
        post == (World { calls: pre.calls.insert(caller, fresh), ..pre }),
    ensures
        orderly(post),
{
    assert forall|tid: u64| #[trigger] post.calls.dom().contains(tid) implies coherent(
        post.gate,
        tid,
        post.calls[tid],
    ) by {}
    assert forall|tid: u64| engaged(post.gate, tid) implies #[trigger] post.calls.dom().contains(
        tid,
    ) by {}
}

/// Order is kept: every world of an execution that starts in order is in
/// order.
pub proof fn law_order_is_kept(worlds: Seq<World>, moves: Seq<Move>, at: int)
    requires
        execution(worlds, moves),
        orderly(worlds[0]),
        0 <= at < worlds.len(),
    ensures
        orderly(worlds[at]),
    decreases at,
{
    if at > 0 {
        law_order_is_kept(worlds, moves, at - 1);
        law_move_keeps_order(worlds[at - 1], moves[at - 1], worlds[at]);
    }
}

/// Mutual exclusion in one world:
/// - a call that is about to read or write the flag belongs to the thread
///   that holds the lock;
/// - no two calls are inside the critical section at once;
/// - a read clears the flag only where the flag is set;
/// - a thread sleeps on the wait queue only while its call waits, and then
///   it does not hold the lock.
pub open spec fn exclusive(world: World) -> bool {
    &&& forall|tid: u64|
        #![trigger world.calls[tid]]
        world.calls.dom().contains(tid) && (world.calls[tid].phase == Phase::Observe
            || world.calls[tid].phase == Phase::Store) ==> world.gate.holds(tid)
    &&& forall|one: u64, other: u64|
        #![trigger world.calls[one], world.calls[other]]
        world.calls.dom().contains(one) && world.calls.dom().contains(other)
            && world.calls[one].inside() && world.calls[other].inside() ==> one == other
    &&& forall|tid: u64|
        #![trigger world.calls[tid]]
        world.calls.dom().contains(tid) && world.calls[tid].action() == Some(Action::Store(false))
            ==> world.gate.flag
    &&& forall|tid: u64|
        #![trigger world.calls[tid]]
        world.gate.waiters.contains(tid) ==> world.calls.dom().contains(tid)
            && world.calls[tid].phase == Phase::Wait && !world.gate.holds(tid)
}

/// Order excludes.
pub proof fn law_order_excludes(world: World)
    requires
        orderly(world),
    ensures
        exclusive(world),
{
    assert forall|tid: u64|
        world.gate.waiters.contains(tid) implies world.calls.dom().contains(tid)
        && #[trigger] world.calls[tid].phase == Phase::Wait && !world.gate.holds(tid) by {}
}

/// Mutual exclusion. Take any execution from the monitor's creation, with
/// any number of threads, their steps in any order, interruptions at any
/// time. At each point of it the flag is touched under the lock only, no
/// two calls are inside the critical section at once, and each signal is
/// consumed by one read: see [`exclusive`].
pub proof fn law_mutual_exclusion(worlds: Seq<World>, moves: Seq<Move>, at: int)
    requires
        execution(worlds, moves),
        worlds[0] == World::initial(),
        0 <= at < worlds.len(),
    ensures
        exclusive(worlds[at]),
{
    law_order_is_kept(worlds, moves, at);
    law_order_excludes(worlds[at]);
}

} // verus!
