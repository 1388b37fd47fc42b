//! The read and the write call, each as a step machine.
//!
//! A call never touches the lock, the flag or the wait queue itself. It names
//! the next primitive that its host has to perform ([`Action`]), and is told
//! what came of it ([`Event`]). The host may be a kernel with real threads, or
//! the model in [`crate::gate`].

use vstd::prelude::*;
use crate::signal::{GateError, Wake};

verus! {

/// A primitive that the host performs on behalf of a call.
#[derive(Clone, Copy, Debug, PartialEq, Eq, Structural)]
pub enum Action {
    /// Take the lock; the calling thread may have to wait for it.
    Acquire,
    /// Read the flag. The caller holds the lock.
    Observe,
    /// Write the flag. The caller holds the lock.
    Store(bool),
    /// Give up the lock and sleep on the wait queue, in one atomic step; take
    /// the lock again before returning. The caller holds the lock.
    Wait,
    /// Give up the lock.
    Release,
    /// Wake at most one waiter.
    NotifyOne,
    /// Wake every waiter.
    NotifyAll,
    /// Detach whatever waiter is still queued.
    ReleaseWaiters,
}

/// What the host reports once an action is done.
#[derive(Clone, Copy, Debug, PartialEq, Eq, Structural)]
pub enum Event {
    /// The answer to every action that yields no value.
    Done,
    /// The answer to [`Action::Observe`]: the flag's value.
    Flag(bool),
    /// The answer to [`Action::Wait`]: the wait is over and the lock is held
    /// again.
    Woken(Wake),
}

/// Where a call stands: the action it is about to ask for.
#[derive(Clone, Copy, Debug, PartialEq, Eq, Structural)]
pub enum Phase {
    Acquire,
    Observe,
    Wait,
    Store,
    Release,
    NotifyOne,
    NotifyAll,
    ReleaseWaiters,
    Finished,
}

/// The whole state of one call.
#[derive(Clone, Copy, Debug)]
pub struct CallState {
    pub phase: Phase,
    /// A read call (it waits for the flag and clears it) or a write call (it
    /// sets the flag).
    pub reads: bool,
    /// What the call returns once it is finished.
    pub outcome: Result<usize, GateError>,
}

impl CallState {
    /// A read call at its entry. With an empty destination or a nonzero
    /// offset it is over before it starts.
    pub open spec fn read(dest_len: usize, offset: u64) -> CallState {
        CallState {
            phase: if dest_len == 0 || offset != 0 {
                Phase::Finished
            } else {
                Phase::Acquire
            },
            reads: true,
            outcome: Ok(0),
        }
    }

    /// A write call at its entry. The payload is ignored but for its length.
    pub open spec fn write(len: usize) -> CallState {
        CallState { phase: Phase::Acquire, reads: false, outcome: Ok(len) }
    }

    /// The action that the call waits for, none once it is finished.
    pub open spec fn action(self) -> Option<Action> {
        match self.phase {
            Phase::Acquire => Some(Action::Acquire),
            Phase::Observe => Some(Action::Observe),
            Phase::Wait => Some(Action::Wait),
            Phase::Store => Some(Action::Store(!self.reads)),
            Phase::Release => Some(Action::Release),
            Phase::NotifyOne => Some(Action::NotifyOne),
            Phase::NotifyAll => Some(Action::NotifyAll),
            Phase::ReleaseWaiters => Some(Action::ReleaseWaiters),
            Phase::Finished => None,
        }
    }

    /// What the call returned, none while it is under way.
    pub open spec fn result(self) -> Option<Result<usize, GateError>> {
        if self.phase == Phase::Finished {
            Some(self.outcome)
        } else {
            None
        }
    }

    /// The call in the given phase, all else unchanged.
    pub open spec fn at(self, phase: Phase) -> CallState {
        CallState { phase, ..self }
    }

    /// The state after `event`. An event that does not answer the pending
    /// action changes nothing.
    pub open spec fn advance(self, event: Event) -> CallState {
        match (self.phase, event) {
            (Phase::Acquire, Event::Done) => self.at(
                if self.reads {
                    Phase::Observe
                } else {
                    Phase::Store
                },
            ),
            (Phase::Observe, Event::Flag(true)) => self.at(Phase::Store),
            (Phase::Observe, Event::Flag(false)) => self.at(Phase::Wait),
            (Phase::Wait, Event::Woken(Wake::Ready)) => self.at(Phase::Observe),
            (Phase::Wait, Event::Woken(Wake::Interrupted)) => CallState {
                phase: Phase::Release,
                outcome: Err(GateError::Interrupted),
                ..self
            },
            (Phase::Store, Event::Done) => self.at(Phase::Release),
            (Phase::Release, Event::Done) => self.at(
                if self.outcome is Err {
                    Phase::Finished
                } else {
                    Phase::NotifyOne
                },
            ),
            (Phase::NotifyOne, Event::Done) => self.at(Phase::NotifyAll),
            (Phase::NotifyAll, Event::Done) => self.at(Phase::ReleaseWaiters),
            (Phase::ReleaseWaiters, Event::Done) => self.at(Phase::Finished),
            _ => self,
        }
    }

    /// Whether `event` is an answer to the pending action.
    pub open spec fn accepts(self, event: Event) -> bool {
        match self.phase {
            Phase::Observe => event is Flag,
            Phase::Wait => event is Woken,
            Phase::Finished => false,
            _ => event is Done,
        }
    }

    /// The states that a call can be in.
    pub open spec fn wf(self) -> bool {
        &&& self.reads ==> self.outcome == Ok::<usize, GateError>(0) || self.outcome is Err
        &&& !self.reads ==> self.outcome is Ok && self.phase != Phase::Observe && self.phase
            != Phase::Wait
        &&& self.outcome is Err ==> self.phase == Phase::Release || self.phase == Phase::Finished
    }

    /// Whether the call is inside its critical section: past taking the lock
    /// and before giving it up. A call that waits is not counted: it gives
    /// the lock up for the time of its sleep.
    pub open spec fn inside(self) -> bool {
        self.phase == Phase::Observe || self.phase == Phase::Store || self.phase == Phase::Release
    }

    /// How many answers the call still needs before it returns, if the flag is
    /// set when it looks and no interruption comes.
    pub open spec fn remaining(self) -> nat {
        match self.phase {
            Phase::Acquire => if self.reads {
                7
            } else {
                6
            },
            Phase::Wait => 7,
            Phase::Observe => 6,
            Phase::Store => 5,
            Phase::Release => if self.outcome is Err {
                1
            } else {
                4
            },
            Phase::NotifyOne => 3,
            Phase::NotifyAll => 2,
            Phase::ReleaseWaiters => 1,
            Phase::Finished => 0,
        }
    }
}

/// A read or write call under way.
///
/// The host asks for the pending [`action`](Call::action), performs it, and
/// reports with [`advance`](Call::advance), until [`result`](Call::result)
/// gives what the call returns.
#[derive(Clone, Copy, Debug)]
pub struct Call {
    state: CallState,
}

impl View for Call {
    type V = CallState;

    closed spec fn view(&self) -> CallState {
        self.state
    }
}

impl Call {
    /// Begins a read into a destination of `dest_len` bytes at `offset`.
    ///
    /// An empty destination or a nonzero offset ends the call at once with 0
    /// bytes, before it asks for any action.
    pub fn read(dest_len: usize, offset: u64) -> (call: Call)
        ensures
            call@ == CallState::read(dest_len, offset),
            call@.wf(),
            dest_len == 0 || offset != 0 ==> call@.result() == Some(
                Ok::<usize, GateError>(0),
            ),
    {
        let phase = if dest_len == 0 || offset != 0 {
            Phase::Finished
        } else {
            Phase::Acquire
        };
        Call { state: CallState { phase, reads: true, outcome: Ok(0) } }
    }

    /// Begins a write of `len` bytes. The call accepts all of them, whatever
    /// they hold, and `len` may be 0.
    pub fn write(len: usize) -> (call: Call)
        ensures
            call@ == CallState::write(len),
            call@.wf(),
    {
        Call { state: CallState { phase: Phase::Acquire, reads: false, outcome: Ok(len) } }
    }

    /// The action that the host has to perform next, none once the call is
    /// finished.
    pub fn action(&self) -> (action: Option<Action>)
        ensures
            action == self@.action(),
    {
        match self.state.phase {
            Phase::Acquire => Some(Action::Acquire),
            Phase::Observe => Some(Action::Observe),
            Phase::Wait => Some(Action::Wait),
            Phase::Store => Some(Action::Store(!self.state.reads)),
            Phase::Release => Some(Action::Release),
            Phase::NotifyOne => Some(Action::NotifyOne),
            Phase::NotifyAll => Some(Action::NotifyAll),
            Phase::ReleaseWaiters => Some(Action::ReleaseWaiters),
            Phase::Finished => None,
        }
    }

    /// What the call returns: the byte count, or the error. None while the
    /// call is under way.
    pub fn result(&self) -> (result: Option<Result<usize, GateError>>)
        ensures
            result == self@.result(),
    {
        match self.state.phase {
            Phase::Finished => Some(self.state.outcome),
            _ => None,
        }
    }

    /// Takes the host's report on the pending action and moves to the next
    /// one.
    pub fn advance(&mut self, event: Event)
        ensures
            final(self)@ == old(self)@.advance(event),
    {
        let reads = self.state.reads;
        let failed = self.state.outcome.is_err();
        match (self.state.phase, event) {
            (Phase::Acquire, Event::Done) => {
                self.state.phase = if reads {
                    Phase::Observe
                } else {
                    Phase::Store
                };
            },
            (Phase::Observe, Event::Flag(true)) => {
                self.state.phase = Phase::Store;
            },
            (Phase::Observe, Event::Flag(false)) => {
                self.state.phase = Phase::Wait;
            },
            (Phase::Wait, Event::Woken(Wake::Ready)) => {
                self.state.phase = Phase::Observe;
            },
            (Phase::Wait, Event::Woken(Wake::Interrupted)) => {
                self.state.phase = Phase::Release;
                self.state.outcome = Err(GateError::Interrupted);
            },
            (Phase::Store, Event::Done) => {
                self.state.phase = Phase::Release;
            },
            (Phase::Release, Event::Done) => {
                self.state.phase = if failed {
                    Phase::Finished
                } else {
                    Phase::NotifyOne
                };
            },
            (Phase::NotifyOne, Event::Done) => {
                self.state.phase = Phase::NotifyAll;
            },
            (Phase::NotifyAll, Event::Done) => {
                self.state.phase = Phase::ReleaseWaiters;
            },
            (Phase::ReleaseWaiters, Event::Done) => {
                self.state.phase = Phase::Finished;
            },
            _ => {},
        }
    }
}

} // verus!
