//! Executions: a monitor, the threads that call it, and what can happen next.

use vstd::prelude::*;
use crate::gate::{steps, GateState};
use crate::protocol::{CallState, Phase};

verus! {

/// A monitor and the calls under way on it, one for each thread that has
/// called.
#[verifier::ext_equal]
pub struct World {
    pub gate: GateState,
    pub calls: Map<u64, CallState>,
}

/// One thing that happens in a world.
pub enum Move {
    /// The thread takes one step of its call, or tries to.
    Step(u64),
    /// An interruption from outside reaches the thread.
    Interrupt(u64),
    /// The thread, which is in no call, begins a read.
    Read { tid: u64, dest_len: usize, offset: u64 },
    /// The thread, which is in no call, begins a write.
    Write { tid: u64, len: usize },
}

impl World {
    /// The world in which the monitor has just been created.
    pub open spec fn initial() -> World {
        World { gate: GateState::initial(), calls: Map::empty() }
    }

    /// Whether `tid` is in no call: it never called, or its last call is
    /// finished.
    pub open spec fn idle(self, tid: u64) -> bool {
        self.calls.dom().contains(tid) ==> self.calls[tid].phase == Phase::Finished
    }

    /// Whether `post` can follow this world by `mv`.
    pub open spec fn moves(self, mv: Move, post: World) -> bool {
        match mv {
            Move::Step(tid) => {
                &&& self.calls.dom().contains(tid)
                &&& steps(self.gate, tid, self.calls[tid], post.gate, post.calls[tid])
                &&& post.calls == self.calls.insert(tid, post.calls[tid])
            },
            Move::Interrupt(tid) => post == World { gate: self.gate.interrupt(tid), ..self },
            Move::Read { tid, dest_len, offset } => {
                &&& self.idle(tid)
                &&& post == World {
                    calls: self.calls.insert(tid, CallState::read(dest_len, offset)),
                    ..self
                }
            },
            Move::Write { tid, len } => {
                &&& self.idle(tid)
                &&& post == World { calls: self.calls.insert(tid, CallState::write(len)), ..self }
            },
        }
    }
}

/// An execution: a row of worlds, each of which follows the one before by
/// the move between them. The moves of the threads come in any order.
pub open spec fn execution(worlds: Seq<World>, moves: Seq<Move>) -> bool {
    &&& worlds.len() == moves.len() + 1
    &&& forall|i: int|
        #![trigger moves[i]]
        0 <= i < moves.len() ==> worlds[i].moves(moves[i], worlds[i + 1])
}

} // verus!
