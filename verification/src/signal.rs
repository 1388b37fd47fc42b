//! The values that cross the monitor's interface.

use vstd::prelude::*;

verus! {

/// The state of the monitor, read off its flag.
#[derive(Clone, Copy, Debug, PartialEq, Eq, Structural)]
pub enum Signal {
    /// No signal is pending: a reader blocks.
    Clear,
    /// A signal was set and no reader has consumed it yet.
    Signaled,
}

/// Why a call failed.
#[derive(Clone, Copy, Debug, PartialEq, Eq, Structural)]
pub enum GateError {
    /// A blocked read was aborted from outside before the signal came.
    Interrupted,
}

/// How a wait on the monitor's queue ended.
#[derive(Clone, Copy, Debug, PartialEq, Eq, Structural)]
pub enum Wake {
    /// Another thread woke the waiter; the flag has to be looked at again.
    Ready,
    /// The wait was cut short from outside.
    Interrupted,
}

/// The state that a flag value stands for.
pub open spec fn signal_of(flag: bool) -> Signal {
    if flag {
        Signal::Signaled
    } else {
        Signal::Clear
    }
}

} // verus!
