use completion::gate::Gate;
use completion::protocol::{Action, Call, Event};
use completion::signal::GateError;
use completion::signal::{Signal, Wake};

#[test]
fn new_gate_is_clear_and_idle() {
    let gate = Gate::new();
    assert_eq!(gate.signal(), Signal::Clear);
    assert_eq!(gate.holder(), None);
    assert_eq!(gate.waiting(), 0);
    assert!(!gate.is_waiting(1));
    assert!(!gate.holds(1));
}

#[test]
fn lock_has_one_holder() {
    let mut gate = Gate::new();
    assert!(gate.acquire(1));
    assert!(gate.holds(1));
    assert_eq!(gate.holder(), Some(1));
    assert!(!gate.acquire(2));
    assert!(!gate.acquire(1));
    assert_eq!(gate.holder(), Some(1));
    gate.release(1);
    assert_eq!(gate.holder(), None);
    assert!(gate.acquire(2));
    assert_eq!(gate.holder(), Some(2));
}

#[test]
fn flag_is_read_and_written_by_the_holder() {
    let mut gate = Gate::new();
    assert!(gate.acquire(7));
    assert!(!gate.get(7));
    gate.set(7, true);
    assert!(gate.get(7));
    assert_eq!(gate.signal(), Signal::Signaled);
    gate.set(7, true);
    assert_eq!(gate.signal(), Signal::Signaled);
    gate.set(7, false);
    assert!(!gate.get(7));
    assert_eq!(gate.signal(), Signal::Clear);
}

#[test]
fn flag_access_without_the_lock_is_refused() {
    let mut gate = Gate::new();
    assert_eq!(gate.perform(1, Action::Observe), None);
    assert_eq!(gate.perform(1, Action::Store(true)), None);
    assert_eq!(gate.signal(), Signal::Clear);
    assert_eq!(gate.perform(1, Action::Release), None);

    assert_eq!(gate.perform(2, Action::Acquire), Some(Event::Done));
    assert_eq!(gate.perform(1, Action::Observe), None);
    assert_eq!(gate.perform(1, Action::Store(true)), None);
    assert_eq!(gate.perform(1, Action::Release), None);
    assert_eq!(gate.perform(1, Action::Acquire), None);
    assert_eq!(gate.signal(), Signal::Clear);
    assert_eq!(gate.holder(), Some(2));

    assert_eq!(gate.perform(2, Action::Observe), Some(Event::Flag(false)));
    assert_eq!(gate.perform(2, Action::Store(true)), Some(Event::Done));
    assert_eq!(gate.perform(2, Action::Observe), Some(Event::Flag(true)));
    assert_eq!(gate.perform(2, Action::Release), Some(Event::Done));
    assert_eq!(gate.holder(), None);
    assert_eq!(gate.signal(), Signal::Signaled);
}

#[test]
fn wait_gives_up_the_lock_and_queues_the_thread() {
    let mut gate = Gate::new();
    assert!(gate.acquire(1));
    assert_eq!(gate.wait(1), None);
    assert_eq!(gate.holder(), None);
    assert!(gate.is_waiting(1));
    assert_eq!(gate.waiting(), 1);
    assert_eq!(gate.wait(1), None);
    assert_eq!(gate.wait(1), None);
    assert_eq!(gate.waiting(), 1);
    assert!(!gate.acquire(1));
    assert!(gate.acquire(2));
}

#[test]
fn notified_waiter_takes_the_lock_again() {
    let mut gate = Gate::new();
    assert!(gate.acquire(1));
    assert_eq!(gate.wait(1), None);
    assert_eq!(gate.notify_one(), Some(1));
    assert!(!gate.is_waiting(1));
    assert_eq!(gate.wait(1), Some(Wake::Ready));
    assert_eq!(gate.holder(), Some(1));
}

#[test]
fn woken_waiter_waits_for_a_busy_lock() {
    let mut gate = Gate::new();
    assert!(gate.acquire(1));
    assert_eq!(gate.wait(1), None);
    assert!(gate.acquire(2));
    gate.notify_all();
    assert_eq!(gate.wait(1), None);
    assert_eq!(gate.holder(), Some(2));
    gate.release(2);
    assert_eq!(gate.wait(1), Some(Wake::Ready));
    assert_eq!(gate.holder(), Some(1));
}

#[test]
fn notify_one_wakes_one_of_two() {
    let mut gate = Gate::new();
    assert!(gate.acquire(1));
    assert_eq!(gate.wait(1), None);
    assert!(gate.acquire(2));
    assert_eq!(gate.wait(2), None);
    assert_eq!(gate.waiting(), 2);

    let woken = gate.notify_one();
    assert!(woken == Some(1) || woken == Some(2));
    assert_eq!(gate.waiting(), 1);
    let other = if woken == Some(1) { 2 } else { 1 };
    assert!(gate.is_waiting(other));
    assert!(!gate.is_waiting(woken.unwrap()));

    assert_eq!(gate.notify_one(), Some(other));
    assert_eq!(gate.waiting(), 0);
    assert_eq!(gate.notify_one(), None);
}

#[test]
fn notify_all_wakes_everyone() {
    let mut gate = Gate::new();
    for tid in 1..=5u64 {
        assert!(gate.acquire(tid));
        assert_eq!(gate.wait(tid), None);
    }
    assert_eq!(gate.waiting(), 5);
    gate.notify_all();
    assert_eq!(gate.waiting(), 0);
    for tid in 1..=5u64 {
        assert!(!gate.is_waiting(tid));
    }
    assert_eq!(gate.signal(), Signal::Clear);
    assert_eq!(gate.holder(), None);
}

#[test]
fn release_waiters_empties_the_queue_and_can_be_repeated() {
    let mut gate = Gate::new();
    for tid in 1..=3u64 {
        assert!(gate.acquire(tid));
        assert_eq!(gate.wait(tid), None);
    }
    gate.release_waiters();
    assert_eq!(gate.waiting(), 0);
    gate.release_waiters();
    assert_eq!(gate.waiting(), 0);
    assert_eq!(gate.wait(2), Some(Wake::Ready));
}

#[test]
fn waking_with_nobody_waiting_changes_nothing() {
    let mut gate = Gate::new();
    assert!(gate.acquire(9));
    gate.set(9, true);
    gate.release(9);

    assert_eq!(gate.notify_one(), None);
    gate.notify_all();
    gate.release_waiters();
    assert_eq!(gate.perform(3, Action::NotifyOne), Some(Event::Done));
    assert_eq!(gate.perform(3, Action::NotifyAll), Some(Event::Done));
    assert_eq!(gate.perform(3, Action::ReleaseWaiters), Some(Event::Done));

    assert_eq!(gate.signal(), Signal::Signaled);
    assert_eq!(gate.holder(), None);
    assert_eq!(gate.waiting(), 0);

    assert!(gate.acquire(1));
    assert_eq!(gate.wait(1), None);
    assert!(gate.is_waiting(1));
    assert_eq!(gate.waiting(), 1);
    assert_eq!(gate.notify_one(), Some(1));
    assert_eq!(gate.wait(1), Some(Wake::Ready));
}

#[test]
fn interruption_ends_a_sleep() {
    let mut gate = Gate::new();
    assert!(gate.acquire(1));
    assert_eq!(gate.wait(1), None);
    assert!(gate.interrupt(1));
    assert!(!gate.is_waiting(1));
    assert_eq!(gate.waiting(), 0);
    assert_eq!(gate.signal(), Signal::Clear);
    assert_eq!(gate.holder(), None);
    assert_eq!(gate.wait(1), Some(Wake::Interrupted));
    assert_eq!(gate.holder(), Some(1));
    gate.release(1);

    assert!(gate.acquire(1));
    assert_eq!(gate.wait(1), None);
    gate.notify_all();
    assert_eq!(gate.wait(1), Some(Wake::Ready));
}

#[test]
fn interruption_of_a_thread_that_is_awake_is_lost() {
    let mut gate = Gate::new();
    assert!(!gate.interrupt(1));
    assert!(gate.acquire(1));
    assert!(!gate.interrupt(1));
    assert_eq!(gate.wait(1), None);
    assert_eq!(gate.notify_one(), Some(1));
    assert!(!gate.interrupt(1));
    assert_eq!(gate.wait(1), Some(Wake::Ready));
}

#[test]
fn interruption_reaches_only_its_thread() {
    let mut gate = Gate::new();
    for tid in 1..=3u64 {
        assert!(gate.acquire(tid));
        assert_eq!(gate.wait(tid), None);
    }
    assert!(gate.interrupt(2));
    assert!(!gate.interrupt(2));
    assert!(gate.is_waiting(1));
    assert!(gate.is_waiting(3));
    assert_eq!(gate.waiting(), 2);
    assert_eq!(gate.wait(1), None);
    assert_eq!(gate.wait(2), Some(Wake::Interrupted));
    gate.release(2);
    gate.notify_all();
    assert_eq!(gate.wait(3), Some(Wake::Ready));
    gate.release(3);
    assert_eq!(gate.wait(1), Some(Wake::Ready));
}

#[test]
fn read_waits_for_a_busy_lock() {
    let mut gate = Gate::new();
    assert!(gate.acquire(2));
    gate.set(2, true);
    let mut read = gate.read(1, 4, 0);
    assert_eq!(read.result(), None);
    assert_eq!(read.action(), Some(Action::Acquire));
    assert!(!gate.is_waiting(1));
    assert_eq!(gate.holder(), Some(2));
    assert_eq!(gate.signal(), Signal::Signaled);

    gate.release(2);
    gate.run(1, &mut read);
    assert_eq!(read.result(), Some(Ok(0)));
    assert_eq!(gate.signal(), Signal::Clear);
    assert_eq!(gate.holder(), None);
}

#[test]
fn write_waits_for_a_busy_lock() {
    let mut gate = Gate::new();
    assert!(gate.acquire(1));
    let mut write = gate.write(2, 11);
    assert_eq!(write.result(), None);
    assert_eq!(write.action(), Some(Action::Acquire));
    assert_eq!(gate.signal(), Signal::Clear);
    assert_eq!(gate.holder(), Some(1));

    gate.release(1);
    gate.run(2, &mut write);
    assert_eq!(write.result(), Some(Ok(11)));
    assert_eq!(gate.signal(), Signal::Signaled);
    assert_eq!(gate.holder(), None);
}

#[test]
fn write_wakes_every_sleeper() {
    let mut gate = Gate::new();
    let calls: Vec<Call> = (1..=4u64).map(|tid| gate.read(tid, 8, 0)).collect();
    assert_eq!(gate.waiting(), 4);
    for call in &calls {
        assert_eq!(call.result(), None);
    }
    assert_eq!(gate.write(9, 3).result(), Some(Ok(3)));
    assert_eq!(gate.waiting(), 0);
    assert_eq!(gate.signal(), Signal::Signaled);
}

#[test]
fn run_of_a_finished_call_changes_nothing() {
    let mut gate = Gate::new();
    let mut write = gate.write(1, 5);
    assert_eq!(gate.signal(), Signal::Signaled);
    let mut read = gate.read(2, 5, 0);
    assert_eq!(gate.signal(), Signal::Clear);
    gate.run(1, &mut write);
    gate.run(2, &mut read);
    assert_eq!(write.result(), Some(Ok(5)));
    assert_eq!(read.result(), Some(Ok(0)));
    assert_eq!(gate.signal(), Signal::Clear);
    assert_eq!(gate.holder(), None);
}

#[test]
fn run_takes_an_interrupted_sleeper_to_its_error() {
    let mut gate = Gate::new();
    let mut read = gate.read(3, 1, 0);
    assert!(gate.interrupt(3));
    assert_eq!(gate.write(4, 1).result(), Some(Ok(1)));
    gate.run(3, &mut read);
    assert_eq!(read.result(), Some(Err(GateError::Interrupted)));
    // The signal was not for the interrupted reader to consume.
    assert_eq!(gate.signal(), Signal::Signaled);
}
