//! The contest: two readers asleep, one write, in every order of the steps
//! of the three.

use vstd::prelude::*;
use crate::gate::GateState;
use crate::handshake::{consumed, gate_with_sleeper, waiting_read, written};
use crate::protocol::{Action, CallState, Phase};
use crate::signal::GateError;
use crate::world::{execution, Move, World};

verus! {

/// Where a contest starts: the monitor is clear, `first` and `second` sleep
/// in a read each, and `writer` is about to write `len` bytes.
pub open spec fn contest_start(first: u64, second: u64, writer: u64, len: usize) -> World {
    World {
        gate: GateState {
            flag: false,
            holder: None,
            waiters: set![first, second],
            interrupted: Set::empty(),
        },
        calls: map![
            first => waiting_read(),
            second => waiting_read(),
            writer => CallState::write(len)
        ],
    }
}

/// Nothing happens but steps of the three calls.
pub open spec fn only_contestants(moves: Seq<Move>, first: u64, second: u64, writer: u64) -> bool {
    forall|i: int|
        0 <= i < moves.len() ==> #[trigger] moves[i] == Move::Step(first) || moves[i]
            == Move::Step(second) || moves[i] == Move::Step(writer)
}

/// Where one reader of a contest can be.
///
/// Until the writer has stored, the reader sleeps. It never sleeps through
/// the last of the writer's wake-ups while the flag is set; and it goes to
/// sleep, or clears the flag, only on what it has seen under the lock.
pub open spec fn reader_fits(gate: GateState, reader: u64, read: CallState, write: CallState) -> bool {
    &&& read.reads
    &&& read.outcome == Ok::<usize, GateError>(0)
    &&& read.phase != Phase::Acquire
    &&& read.phase == Phase::Store ==> gate.flag
    &&& !written(write) ==> read.phase == Phase::Wait && gate.waiters.contains(reader)
    &&& if read.phase != Phase::Wait {
        &&& gate.holds(reader) <==> read.inside()
        &&& !gate.waiters.contains(reader)
    } else if gate.holds(reader) {
        &&& !gate.flag
        &&& !gate.waiters.contains(reader)
    } else {
        gate.waiters.contains(reader) && gate.flag ==> write.phase == Phase::Release
            || write.phase == Phase::NotifyOne || write.phase == Phase::NotifyAll
    }
}

/// The worlds that a contest goes through.
///
/// The flag is set from the writer's store to the store of the reader that
/// gets there first; the other reader finds the flag clear whenever it
/// looks.
pub open spec fn in_contest(world: World, first: u64, second: u64, writer: u64, len: usize) -> bool {
    let gate = world.gate;
    let one = world.calls[first];
    let two = world.calls[second];
    let write = world.calls[writer];
    &&& world.calls.dom() =~= set![first, second, writer]
    &&& gate.wf()
    &&& gate.interrupted =~= Set::empty()
    &&& forall|tid: u64| gate.waiters.contains(tid) ==> tid == first || tid == second
    &&& !write.reads
    &&& write.outcome == Ok::<usize, GateError>(len)
    &&& write.phase != Phase::Observe
    &&& write.phase != Phase::Wait
    &&& gate.flag == (written(write) && !consumed(one) && !consumed(two))
    &&& !(consumed(one) && consumed(two))
    &&& gate.holds(writer) <==> write.phase == Phase::Store || write.phase == Phase::Release
    &&& gate.holder is Some ==> gate.holds(first) || gate.holds(second) || gate.holds(writer)
    &&& reader_fits(gate, first, one, write)
    &&& reader_fits(gate, second, two, write)
}

/// Nobody can move any more: the writer has returned, and each reader has
/// returned or sleeps.
pub open spec fn contest_over(world: World, first: u64, second: u64, writer: u64) -> bool {
    &&& world.calls[writer].phase == Phase::Finished
    &&& world.calls[first].phase == Phase::Finished || world.gate.waiters.contains(first)
    &&& world.calls[second].phase == Phase::Finished || world.gate.waiters.contains(second)
}

/// What a reader has before it. A wake-up of its own counts for more than
/// what the reader that it wakes then does, which finds the flag clear.
pub open spec fn reader_left(gate: GateState, reader: u64, read: CallState) -> nat {
    match read.phase {
        Phase::Wait => if gate.waiters.contains(reader) {
            0
        } else if gate.holds(reader) {
            1
        } else if gate.flag {
            16
        } else {
            3
        },
        Phase::Observe => if gate.flag {
            15
        } else {
            2
        },
        Phase::Store => 14,
        Phase::Release => 13,
        Phase::NotifyOne => 12,
        Phase::NotifyAll => 8,
        Phase::ReleaseWaiters => 4,
        Phase::Finished => 0,
        Phase::Acquire => 17,
    }
}

/// What the writer has before it. A wake-up of its own counts for more than
/// what the two readers that it wakes then do.
pub open spec fn writer_left(write: CallState) -> nat {
    match write.phase {
        Phase::Acquire => 102,
        Phase::Store => 101,
        Phase::Release => 100,
        Phase::NotifyOne => 99,
        Phase::NotifyAll => 66,
        Phase::ReleaseWaiters => 33,
        _ => 0,
    }
}

/// A bound on the steps that the three calls still take. Each step that
/// changes anything lowers it.
pub open spec fn contest_left(world: World, first: u64, second: u64, writer: u64) -> nat {
    reader_left(world.gate, first, world.calls[first]) + reader_left(
        world.gate,
        second,
        world.calls[second],
    ) + writer_left(world.calls[writer])
}

/// A thread that can take a step in a contest that is not over: the holder
/// of the lock if there is one; else the writer while it is under way; else
/// a reader that is awake.
pub open spec fn contest_mover(world: World, first: u64, second: u64, writer: u64) -> u64 {
    if world.gate.holder is Some {
        world.gate.holder->Some_0
    } else if world.calls[writer].phase != Phase::Finished {
        writer
    } else if world.calls[first].phase != Phase::Finished && !world.gate.waiters.contains(first) {
        first
    } else {
        second
    }
}

/// The world after that step, where a single notification wakes `first` if
/// it can.
pub open spec fn contest_next(world: World, first: u64, second: u64, writer: u64) -> World {
    let mover = contest_mover(world, first, second, writer);
    let call = world.calls[mover];
    let action = call.action()->Some_0;
    let gate = world.gate;
    World {
        gate: match action {
            Action::Acquire => gate.acquired(mover),
            Action::Observe => gate,
            Action::Store(value) => gate.stored(value),
            Action::Wait => if gate.holds(mover) {
                gate.parked(mover)
            } else {
                gate.resumed(mover)
            },
            Action::Release => gate.released(),
            Action::NotifyOne => if gate.waiters.contains(first) {
                gate.woken(first)
            } else if gate.waiters.contains(second) {
                gate.woken(second)
            } else {
                gate
            },
            Action::NotifyAll => gate.drained(),
            Action::ReleaseWaiters => gate.drained(),
        },
        calls: world.calls.insert(
            mover,
            match gate.answer(mover, action) {
                Some(event) => call.advance(event),
                None => call,
            },
        ),
    }
}

/// The start of a contest is one of its worlds.
pub proof fn law_contest_begins(first: u64, second: u64, writer: u64, len: usize)
    requires
        first != second,
        first != writer,
        second != writer,
    ensures
        in_contest(contest_start(first, second, writer, len), first, second, writer, len),
{
}

/// A step of any of the three leads from one world of the contest to
/// another. Either something has changed and the end is nearer, or the
/// thread has to wait and the world is as before.
pub proof fn law_contest_step(
    pre: World,
    mover: u64,
    post: World,
    first: u64,
    second: u64,
    writer: u64,
    len: usize,
)
    requires
        first != second,
        first != writer,
        second != writer,
        mover == first || mover == second || mover == writer,
        in_contest(pre, first, second, writer, len),
        pre.moves(Move::Step(mover), post),
    ensures
        in_contest(post, first, second, writer, len),
        post == pre || contest_left(post, first, second, writer) < contest_left(
            pre,
            first,
            second,
            writer,
        ),
{
}

/// No contest gets stuck before it is over: one of the three can take a
/// step that brings the end nearer.
pub proof fn law_contest_goes_on(world: World, first: u64, second: u64, writer: u64, len: usize)
    requires
        first != second,
        first != writer,
        second != writer,
        in_contest(world, first, second, writer, len),
        !contest_over(world, first, second, writer),
    ensures
        world.moves(
            Move::Step(contest_mover(world, first, second, writer)),
            contest_next(world, first, second, writer),
        ),
        contest_left(contest_next(world, first, second, writer), first, second, writer)
            < contest_left(world, first, second, writer),
{
    law_contest_step(
        world,
        contest_mover(world, first, second, writer),
        contest_next(world, first, second, writer),
        first,
        second,
        writer,
        len,
    );
}

/// Every world of a contest is one of [`in_contest`].
pub proof fn law_contest_is_kept(
    worlds: Seq<World>,
    moves: Seq<Move>,
    first: u64,
    second: u64,
    writer: u64,
    len: usize,
    at: int,
)
    requires
        first != second,
        first != writer,
        second != writer,
        execution(worlds, moves),
        only_contestants(moves, first, second, writer),
        in_contest(worlds[0], first, second, writer, len),
        0 <= at < worlds.len(),
    ensures
        in_contest(worlds[at], first, second, writer, len),
        contest_left(worlds[at], first, second, writer) <= contest_left(
            worlds[0],
            first,
            second,
            writer,
        ),
    decreases at,
{
    if at > 0 {
        law_contest_is_kept(worlds, moves, first, second, writer, len, at - 1);
        let mv = moves[at - 1];
        let mover = if mv == Move::Step(first) {
            first
        } else if mv == Move::Step(second) {
            second
        } else {
            writer
        };
        law_contest_step(worlds[at - 1], mover, worlds[at], first, second, writer, len);
    }
}

/// One signal lets one reader through. Two readers sleep in a read each, on
/// a clear monitor, and one writer writes once. Then, in whatever order the
/// steps of the three come and whomever a notification wakes:
/// - no call fails, and the two readers never both return;
/// - as long as somebody can move, somebody can take a step that brings the
///   end nearer;
/// - once nobody can move, the write has returned its length, one of the
///   readers has returned 0 bytes, and the other sleeps again, on a monitor
///   that is clear and unlocked: as at the start of a handshake, where the
///   next write lets it through.
pub proof fn law_contest(
    worlds: Seq<World>,
    moves: Seq<Move>,
    first: u64,
    second: u64,
    writer: u64,
    len: usize,
    at: int,
)
    requires
        first != second,
        first != writer,
        second != writer,
        worlds[0] == contest_start(first, second, writer, len),
        execution(worlds, moves),
        only_contestants(moves, first, second, writer),
        0 <= at < worlds.len(),
    ensures
        worlds[at].calls[first].result() is Some ==> worlds[at].calls[first].result() == Some(
            Ok::<usize, GateError>(0),
        ),
        worlds[at].calls[second].result() is Some ==> worlds[at].calls[second].result() == Some(
            Ok::<usize, GateError>(0),
        ),
        worlds[at].calls[writer].result() is Some ==> worlds[at].calls[writer].result() == Some(
            Ok::<usize, GateError>(len),
        ),
        !(worlds[at].calls[first].result() is Some && worlds[at].calls[second].result() is Some),
        !contest_over(worlds[at], first, second, writer) ==> {
            let mover = contest_mover(worlds[at], first, second, writer);
            let next = contest_next(worlds[at], first, second, writer);
            &&& mover == first || mover == second || mover == writer
            &&& worlds[at].moves(Move::Step(mover), next)
            &&& contest_left(next, first, second, writer) < contest_left(
                worlds[at],
                first,
                second,
                writer,
            )
        },
        contest_over(worlds[at], first, second, writer) ==> {
            let winner = if worlds[at].calls[first].result() is Some {
                first
            } else {
                second
            };
            let loser = if worlds[at].calls[first].result() is Some {
                second
            } else {
                first
            };
            &&& worlds[at].calls[winner].result() == Some(Ok::<usize, GateError>(0))
            &&& worlds[at].calls[loser] == waiting_read()
            &&& worlds[at].gate == gate_with_sleeper(loser)
        },
        contest_left(worlds[at], first, second, writer) <= 102,
{
    law_contest_begins(first, second, writer, len);
    law_contest_is_kept(worlds, moves, first, second, writer, len, at);
    if !contest_over(worlds[at], first, second, writer) {
        law_contest_goes_on(worlds[at], first, second, writer, len);
    }
}

} // verus!
