//! A completion gate: a single-slot blocking handshake between threads.
//!
//! One side signals an event by a write call; the other side waits for it in
//! a read call, consumes it and returns. The state that the two share is one
//! boolean flag under a lock, with a wait queue bound to that lock. No data
//! passes: a write's payload is ignored but for its length, and a read
//! returns no bytes.
//!
//! - [`signal`] holds the values at the interface.
//! - [`protocol`] holds the decisions of a read and of a write call, as a
//!   step machine. A host drives it: it performs the action that the call
//!   asks for, and reports what came of it.
//! - [`gate`] holds a sequential model of the monitor (flag, lock and wait
//!   queue), which performs those actions for numbered threads, one atomic
//!   step at a time.
//! - [`world`] says what an execution is: any number of threads, their steps
//!   in any order, interruptions at any time.
//! - [`exclusion`] proves that the flag is touched under the lock, by one
//!   thread at a time, in every execution.
//! - [`wakeup`] proves that no waiter is left stranded: while the flag is set,
//!   whoever sleeps is about to be woken, in every execution.
//! - [`handshake`] proves that no signal is lost between one reader and one
//!   writer, and [`contest`] that one signal lets one of two readers
//!   through, in every order of their steps.
//! - [`laws`] holds what is true of single steps: waking is idempotent, a
//!   short read touches nothing, an interrupted read fails and leaves the
//!   lock free.
//!
//! What is proved is proved of the model. A host with real threads is taken
//! to give what the model gives: a lock with one holder, a wait that gives
//! the lock up and queues the thread in one step, and wake-ups that reach
//! queued threads only.

pub mod signal;
pub mod protocol;
pub mod gate;
pub mod world;
pub mod exclusion;
pub mod wakeup;
pub mod handshake;
pub mod contest;
pub mod laws;
