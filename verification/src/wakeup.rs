//! No waiter is left stranded: while the flag is set, whoever sleeps is
//! about to be woken.

use vstd::prelude::*;
use crate::exclusion::{law_move_keeps_order, orderly};
use crate::protocol::{CallState, Phase};
use crate::world::{execution, Move, World};

verus! {

/// Whether the call is on its way to wake every waiter: it has written the
/// flag and has not yet notified all.
pub open spec fn wakes(call: CallState) -> bool {
    call.outcome is Ok && (call.phase == Phase::Release || call.phase == Phase::NotifyOne
        || call.phase == Phase::NotifyAll)
}

/// Whoever sleeps while the flag is set has a call on its way to wake it.
pub open spec fn attended(world: World) -> bool {
    forall|sleeper: u64|
        world.gate.flag && #[trigger] world.gate.waiters.contains(sleeper) ==> exists|tid: u64|
            world.calls.dom().contains(tid) && #[trigger] wakes(world.calls[tid])
}

/// No move takes the attendance from the sleepers of an orderly world. A
/// thread goes to sleep only where the flag is clear; the call that sets the
/// flag goes on to wake all; and the call that has woken all leaves nobody
/// asleep.
pub proof fn law_move_keeps_attendance(pre: World, mv: Move, post: World)
    requires
        orderly(pre),
        attended(pre),
        pre.moves(mv, post),
    ensures
        attended(post),
{
    assert forall|sleeper: u64|
        post.gate.flag && #[trigger] post.gate.waiters.contains(sleeper) implies exists|tid: u64|
        post.calls.dom().contains(tid) && #[trigger] wakes(post.calls[tid]) by {
        let stepped = mv matches Move::Step(mover) && wakes(post.calls[mover]);
        if !stepped {
            // The sleeper slept before, under a set flag, and its waker is
            // still on its way.
            assert(pre.gate.flag && pre.gate.waiters.contains(sleeper));
            let waker = choose|tid: u64|
                pre.calls.dom().contains(tid) && #[trigger] wakes(pre.calls[tid]);
            assert(wakes(post.calls[waker]));
        }
    }
}

/// Every world of an execution that starts in order and attended is in
/// order and attended.
pub proof fn law_attendance_is_kept(worlds: Seq<World>, moves: Seq<Move>, at: int)
    requires
        execution(worlds, moves),
        orderly(worlds[0]),
        attended(worlds[0]),
        0 <= at < worlds.len(),
    ensures
        orderly(worlds[at]),
        attended(worlds[at]),
    decreases at,
{
    if at > 0 {
        law_attendance_is_kept(worlds, moves, at - 1);
        law_move_keeps_order(worlds[at - 1], moves[at - 1], worlds[at]);
        law_move_keeps_attendance(worlds[at - 1], moves[at - 1], worlds[at]);
    }
}

/// No waiter is left stranded. Take any execution from the monitor's
/// creation, with any number of readers and writers, their steps in any
/// order, interruptions at any time. Whenever the flag is set and a thread
/// sleeps, some call is on its way to wake every sleeper: the thread will
/// get to look at the flag again.
pub proof fn law_no_waiter_is_stranded(worlds: Seq<World>, moves: Seq<Move>, at: int)
    requires
        execution(worlds, moves),
        worlds[0] == World::initial(),
        0 <= at < worlds.len(),
    ensures
        attended(worlds[at]),
{
    law_attendance_is_kept(worlds, moves, at);
}

} // verus!
