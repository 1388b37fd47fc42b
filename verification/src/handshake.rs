//! The handshake: one read, one write, in every order of their steps.

use vstd::prelude::*;
use crate::gate::{steps, GateState};
use crate::protocol::{Action, CallState, Phase};
use crate::signal::GateError;
use crate::world::{execution, Move, World};

verus! {

/// A read call that has found the flag clear and waits.
pub open spec fn waiting_read() -> CallState {
    CallState { phase: Phase::Wait, reads: true, outcome: Ok(0) }
}

/// A clear monitor on which `reader` sleeps and nothing else goes on.
pub open spec fn gate_with_sleeper(reader: u64) -> GateState {
    GateState { flag: false, holder: None, waiters: set![reader], interrupted: Set::empty() }
}

/// A handshake in which the reader came first: it sleeps in its read, on a
/// clear monitor, and `writer` is about to write `len` bytes.
pub open spec fn handshake_start(reader: u64, writer: u64, len: usize) -> World {
    World {
        gate: gate_with_sleeper(reader),
        calls: map![reader => waiting_read(), writer => CallState::write(len)],
    }
}

/// A handshake in which both calls begin at once, on a monitor as it was
/// created.
pub open spec fn handshake_race(
    reader: u64,
    dest_len: usize,
    offset: u64,
    writer: u64,
    len: usize,
) -> World {
    World {
        gate: GateState::initial(),
        calls: map![reader => CallState::read(dest_len, offset), writer => CallState::write(len)],
    }
}

/// Nothing happens but steps of the two calls: no interruption, no further
/// call.
pub open spec fn only_steps(moves: Seq<Move>, reader: u64, writer: u64) -> bool {
    forall|i: int|
        0 <= i < moves.len() ==> #[trigger] moves[i] == Move::Step(reader) || moves[i]
            == Move::Step(writer)
}

/// The writer has set the flag.
pub open spec fn written(write: CallState) -> bool {
    write.phase == Phase::Release || write.phase == Phase::NotifyOne || write.phase
        == Phase::NotifyAll || write.phase == Phase::ReleaseWaiters || write.phase
        == Phase::Finished
}

/// The reader has cleared the flag.
pub open spec fn consumed(read: CallState) -> bool {
    read.phase == Phase::Release || read.phase == Phase::NotifyOne || read.phase
        == Phase::NotifyAll || read.phase == Phase::ReleaseWaiters || read.phase
        == Phase::Finished
}

/// The worlds that a handshake goes through.
///
/// The flag is set from the writer's store to the reader's. A reader that
/// has found the flag clear holds the lock until it is on the wait queue, so
/// the writer's store, and with it the writer's wake-up, comes after; and a
/// reader that was woken finds the flag set. So the reader sleeps at most
/// once, and never after the last wake-up.
pub open spec fn in_handshake(world: World, reader: u64, writer: u64, len: usize) -> bool {
    let gate = world.gate;
    let read = world.calls[reader];
    let write = world.calls[writer];
    &&& world.calls.dom() =~= set![reader, writer]
    &&& read.reads
    &&& read.outcome == Ok::<usize, GateError>(0)
    &&& !write.reads
    &&& write.outcome == Ok::<usize, GateError>(len)
    &&& write.phase != Phase::Observe
    &&& write.phase != Phase::Wait
    &&& gate.interrupted =~= Set::empty()
    &&& gate.flag == (written(write) && !consumed(read))
    &&& consumed(read) || read.phase == Phase::Store ==> written(write)
    &&& gate.holds(writer) <==> write.phase == Phase::Store || write.phase == Phase::Release
    &&& gate.holder is Some ==> gate.holds(reader) || gate.holds(writer)
    &&& if read.phase != Phase::Wait {
        &&& gate.holds(reader) <==> read.inside()
        &&& gate.waiters =~= Set::empty()
    } else if gate.holds(reader) {
        // About to sleep: the flag was clear, and the writer is still
        // outside.
        &&& write.phase == Phase::Acquire
        &&& gate.waiters =~= Set::empty()
    } else if gate.waiters.contains(reader) {
        // Asleep: the writer has not yet notified.
        &&& gate.waiters =~= set![reader]
        &&& write.phase == Phase::Acquire || write.phase == Phase::Store || write.phase
            == Phase::Release || write.phase == Phase::NotifyOne
    } else {
        // Woken by the writer, and on the way back to the lock.
        &&& gate.waiters =~= Set::empty()
        &&& write.phase == Phase::NotifyAll || write.phase == Phase::ReleaseWaiters
            || write.phase == Phase::Finished
    }
}

/// Both calls have returned.
pub open spec fn handshake_over(world: World, reader: u64, writer: u64) -> bool {
    world.calls[reader].phase == Phase::Finished && world.calls[writer].phase == Phase::Finished
}

/// A bound on the steps that the two calls still take. Each step that
/// changes anything lowers it: the reader has more before it as long as it
/// may still go to sleep.
pub open spec fn handshake_left(world: World, reader: u64, writer: u64) -> nat {
    let read = world.calls[reader];
    let ahead: nat = match read.phase {
        Phase::Acquire => 10,
        Phase::Observe => if world.gate.flag {
            6
        } else {
            9
        },
        Phase::Wait => if world.gate.holds(reader) {
            8
        } else {
            7
        },
        _ => read.remaining(),
    };
    ahead + world.calls[writer].remaining()
}

/// A thread that can take a step in a handshake that is not over: the writer
/// while it is under way and need not wait for the lock, else the reader.
pub open spec fn handshake_mover(world: World, reader: u64, writer: u64) -> u64 {
    let write = world.calls[writer];
    if write.phase == Phase::Finished || write.phase == Phase::Acquire
        && world.gate.holder is Some {
        reader
    } else {
        writer
    }
}

/// The world after that step.
pub open spec fn handshake_next(world: World, reader: u64, writer: u64) -> World {
    let mover = handshake_mover(world, reader, writer);
    let call = world.calls[mover];
    let action = call.action()->Some_0;
    let gate = world.gate;
    World {
        gate: match action {
            Action::Acquire => gate.acquired(mover),
            Action::Observe => gate,
            Action::Store(value) => gate.stored(value),
            Action::Wait => if gate.holds(mover) {
                gate.parked(mover)
            } else {
                gate.resumed(mover)
            },
            Action::Release => gate.released(),
            Action::NotifyOne => if gate.waiters.contains(reader) {
                gate.woken(reader)
            } else {
                gate
            },
            Action::NotifyAll => gate.drained(),
            Action::ReleaseWaiters => gate.drained(),
        },
        calls: world.calls.insert(
            mover,
            match gate.answer(mover, action) {
                Some(event) => call.advance(event),
                None => call,
            },
        ),
    }
}

/// A handshake can begin with the reader asleep, or with both calls at their
/// entry; a read that is over at once, for want of room or for its offset,
/// takes no part in a handshake.
pub proof fn law_handshake_begins(
    reader: u64,
    dest_len: usize,
    offset: u64,
    writer: u64,
    len: usize,
)
    requires
        reader != writer,
        dest_len > 0,
        offset == 0,
    ensures
        in_handshake(handshake_start(reader, writer, len), reader, writer, len),
        in_handshake(handshake_race(reader, dest_len, offset, writer, len), reader, writer, len),
{
}

/// A step of either call leads from one world of the handshake to another.
/// Either something has changed and the end is nearer, or the thread has to
/// wait, for the lock or for a wake-up, and the world is as before.
pub proof fn law_handshake_step(
    pre: World,
    mover: u64,
    post: World,
    reader: u64,
    writer: u64,
    len: usize,
)
    requires
        reader != writer,
        mover == reader || mover == writer,
        in_handshake(pre, reader, writer, len),
        pre.moves(Move::Step(mover), post),
    ensures
        in_handshake(post, reader, writer, len),
        post == pre || handshake_left(post, reader, writer) < handshake_left(pre, reader, writer),
{
}

/// No handshake gets stuck: as long as a call is under way, one of the two
/// threads can take a step that brings the end nearer. With
/// [`law_handshake_step`]: whoever lets the threads move, both calls return,
/// after 16 such steps at most.
pub proof fn law_handshake_goes_on(world: World, reader: u64, writer: u64, len: usize)
    requires
        reader != writer,
        in_handshake(world, reader, writer, len),
        !handshake_over(world, reader, writer),
    ensures
        world.moves(
            Move::Step(handshake_mover(world, reader, writer)),
            handshake_next(world, reader, writer),
        ),
        handshake_left(handshake_next(world, reader, writer), reader, writer) < handshake_left(
            world,
            reader,
            writer,
        ),
        handshake_left(world, reader, writer) <= 16,
{
}

/// Every world of a handshake is one of [`in_handshake`].
pub proof fn law_handshake_is_kept(
    worlds: Seq<World>,
    moves: Seq<Move>,
    reader: u64,
    writer: u64,
    len: usize,
    at: int,
)
    requires
        reader != writer,
        execution(worlds, moves),
        only_steps(moves, reader, writer),
        in_handshake(worlds[0], reader, writer, len),
        0 <= at < worlds.len(),
    ensures
        in_handshake(worlds[at], reader, writer, len),
        handshake_left(worlds[at], reader, writer) <= handshake_left(worlds[0], reader, writer),
    decreases at,
{
    if at > 0 {
        law_handshake_is_kept(worlds, moves, reader, writer, len, at - 1);
        let mv = moves[at - 1];
        let mover = if mv == Move::Step(reader) {
            reader
        } else {
            writer
        };
        law_handshake_step(worlds[at - 1], mover, worlds[at], reader, writer, len);
    }
}

/// No signal is lost. One reader reads and one writer writes once, on a
/// monitor that was clear; the reader is asleep in its read when the writer
/// comes, or the two begin at once. Then, in whatever order the steps of the
/// two come:
/// - neither call fails;
/// - the read returns 0 bytes and the write the length it was given;
/// - once both have returned, the monitor is as it was created: clear (the
///   reader has consumed the signal), unlocked, nobody waiting;
/// - until then one of the two can take a step that brings the end nearer,
///   so both do return, whoever lets the threads move.
pub proof fn law_handshake(
    worlds: Seq<World>,
    moves: Seq<Move>,
    reader: u64,
    dest_len: usize,
    offset: u64,
    writer: u64,
    len: usize,
    at: int,
)
    requires
        reader != writer,
        dest_len > 0,
        offset == 0,
        worlds[0] == handshake_start(reader, writer, len) || worlds[0] == handshake_race(
            reader,
            dest_len,
            offset,
            writer,
            len,
        ),
        execution(worlds, moves),
        only_steps(moves, reader, writer),
        0 <= at < worlds.len(),
    ensures
        worlds[at].calls[reader].result() is Some ==> worlds[at].calls[reader].result() == Some(
            Ok::<usize, GateError>(0),
        ),
        worlds[at].calls[writer].result() is Some ==> worlds[at].calls[writer].result() == Some(
            Ok::<usize, GateError>(len),
        ),
        handshake_over(worlds[at], reader, writer) ==> worlds[at].gate == GateState::initial(),
        !handshake_over(worlds[at], reader, writer) ==> {
            let mover = handshake_mover(worlds[at], reader, writer);
            let next = handshake_next(worlds[at], reader, writer);
            &&& mover == reader || mover == writer
            &&& worlds[at].moves(Move::Step(mover), next)
            &&& handshake_left(next, reader, writer) < handshake_left(worlds[at], reader, writer)
        },
        handshake_left(worlds[at], reader, writer) <= 16,
{
    law_handshake_begins(reader, dest_len, offset, writer, len);
    law_handshake_is_kept(worlds, moves, reader, writer, len, at);
    if !handshake_over(worlds[at], reader, writer) {
        law_handshake_goes_on(worlds[at], reader, writer, len);
    }
}

/// A read on a clear monitor goes to sleep. Where the flag is clear and the
/// lock free, a read with room in its destination and offset 0 takes the
/// lock, finds the flag clear, and waits: it gives the lock up and is put on
/// the queue. There it stays, and has not returned, until somebody wakes it.
/// So after a handshake the next read sleeps again.
pub proof fn law_read_sleeps_on_clear_gate(
    gate: GateState,
    tid: u64,
    dest_len: usize,
    offset: u64,
    locked: GateState,
    looking: CallState,
    seen: GateState,
    waiting: CallState,
    asleep: GateState,
    sleeping: CallState,
    later: GateState,
    still: CallState,
)
    requires
        !gate.flag,
        gate.acquirable(tid),
        dest_len > 0,
        offset == 0,
        steps(gate, tid, CallState::read(dest_len, offset), locked, looking),
        steps(locked, tid, looking, seen, waiting),
        steps(seen, tid, waiting, asleep, sleeping),
        steps(asleep, tid, sleeping, later, still),
    ensures
        locked == gate.acquired(tid),
        looking.action() == Some(Action::Observe),
        seen == locked,
        waiting.action() == Some(Action::Wait),
        asleep == gate.parked(tid),
        asleep.waiters.contains(tid),
        asleep.holder is None,
        !asleep.flag,
        sleeping == waiting_read(),
        sleeping.result() is None,
        later == asleep,
        still == sleeping,
        gate == GateState::initial() ==> asleep == gate_with_sleeper(tid),
{
}

} // verus!
