use completion::gate::Gate;
use completion::protocol::{Action, Call, Event};
use completion::signal::Signal;

fn inside(call: &Call) -> bool {
    matches!(
        call.action(),
        Some(Action::Observe) | Some(Action::Store(_)) | Some(Action::Release)
    )
}

/// A small generator of numbers, the same on every run.
fn next(seed: &mut u64) -> u64 {
    *seed = seed
        .wrapping_mul(6364136223846793005)
        .wrapping_add(1442695040888963407);
    *seed >> 33
}

#[test]
fn flag_is_touched_under_the_lock_in_a_long_run() {
    let threads: u64 = 6;
    let mut seed: u64 = 2024;
    let mut gate = Gate::new();
    let mut calls: Vec<Call> = (0..threads).map(|_| Call::read(0, 0)).collect();
    let mut interrupted = vec![false; threads as usize];
    let mut returned = 0u64;
    let mut consumed = 0u64;
    let mut signals = 0u64;
    let mut attended = 0u64;

    for _ in 0..60_000 {
        let tid = next(&mut seed) % threads;
        let call = &mut calls[tid as usize];

        if call.result().is_some() {
            returned += 1;
            interrupted[tid as usize] = false;
            *call = match next(&mut seed) % 4 {
                0 => Call::write((next(&mut seed) % 100) as usize),
                1 => Call::read(0, 0),
                _ => Call::read(16, 0),
            };
        } else if next(&mut seed) % 50 == 0 {
            if gate.interrupt(tid) {
                interrupted[tid as usize] = true;
            }
        } else {
            let action = call.action();
            let before = gate.signal();
            let holder = gate.holder();
            let moved = gate.step(tid, call);
            match action {
                Some(Action::Observe) | Some(Action::Store(_)) | Some(Action::Release) => {
                    // Whoever asks for these holds the lock and is answered.
                    assert_eq!(holder, Some(tid));
                    assert!(moved);
                }
                _ => {}
            }
            if gate.signal() != before {
                assert_eq!(holder, Some(tid));
                match action {
                    Some(Action::Store(false)) => {
                        assert_eq!(before, Signal::Signaled);
                        consumed += 1;
                    }
                    Some(Action::Store(true)) => signals += 1,
                    _ => panic!("the flag changed on {:?}", action),
                }
            }
        }

        let in_section: Vec<u64> = (0..threads)
            .filter(|t| inside(&calls[*t as usize]))
            .collect();
        assert!(in_section.len() <= 1);
        match gate.holder() {
            Some(holder) => {
                assert!(!gate.is_waiting(holder));
                let call = &calls[holder as usize];
                assert!(inside(call) || call.action() == Some(Action::Wait));
            }
            None => assert!(in_section.is_empty()),
        }
        for t in 0..threads {
            if gate.is_waiting(t) {
                assert_eq!(calls[t as usize].action(), Some(Action::Wait));
                assert!(!gate.holds(t));
            }
        }
        // Whoever sleeps while the flag is set is about to be woken.
        if gate.signal() == Signal::Signaled && gate.waiting() > 0 {
            attended += 1;
            assert!((0..threads).any(|t| match calls[t as usize].action() {
                Some(Action::Release) => !interrupted[t as usize],
                Some(Action::NotifyOne) | Some(Action::NotifyAll) => true,
                _ => false,
            }));
        }
    }
    assert!(attended > 30);
    assert!(returned > 300);
    assert!(consumed > 30);
    // No signal is consumed twice.
    assert!(consumed <= signals);
}

#[test]
fn second_thread_cannot_enter_while_the_first_is_inside() {
    let mut gate = Gate::new();
    let mut write = Call::write(1);
    assert!(gate.step(1, &mut write));
    assert_eq!(gate.holder(), Some(1));

    let mut read = Call::read(4, 0);
    let mut other = Call::write(2);
    for _ in 0..5 {
        assert!(!gate.step(2, &mut read));
        assert!(!gate.step(3, &mut other));
        assert_eq!(read.action(), Some(Action::Acquire));
        assert_eq!(other.action(), Some(Action::Acquire));
    }
    assert_eq!(gate.signal(), Signal::Clear);

    assert!(gate.step(1, &mut write));
    assert_eq!(gate.signal(), Signal::Signaled);
    assert!(!gate.step(2, &mut read));
    assert!(gate.step(1, &mut write));
    assert_eq!(gate.holder(), None);

    assert!(gate.step(2, &mut read));
    assert_eq!(gate.holder(), Some(2));
    assert!(!gate.step(3, &mut other));
    assert_eq!(gate.perform(3, Action::Observe), None);
    assert_eq!(gate.perform(2, Action::Observe), Some(Event::Flag(true)));
}

#[test]
fn run_leads_where_the_steps_lead() {
    let threads: u64 = 4;
    let mut seed: u64 = 7;
    let mut gate = Gate::new();
    let mut calls: Vec<Call> = (0..threads).map(|_| Call::write(0)).collect();
    let mut compared = 0;

    for round in 0..20_000 {
        let tid = next(&mut seed) % threads;
        if calls[tid as usize].result().is_some() {
            calls[tid as usize] = match next(&mut seed) % 3 {
                0 => Call::write(round),
                _ => Call::read(1, 0),
            };
        }
        if next(&mut seed) % 20 == 0 {
            gate.interrupt(tid);
        }

        if next(&mut seed) % 4 == 0 {
            let mut by_run = (gate.clone(), calls[tid as usize]);
            by_run.0.run(tid, &mut by_run.1);

            let mut by_steps = (gate.clone(), calls[tid as usize]);
            while by_steps.0.step(tid, &mut by_steps.1) {}
            // The step that did not move the call may have put it to sleep.
            assert_eq!(format!("{:?}", by_run), format!("{:?}", by_steps));
            let again = format!("{:?}", by_steps);
            assert!(!by_steps.0.step(tid, &mut by_steps.1));
            assert_eq!(format!("{:?}", by_steps), again);

            gate = by_run.0;
            calls[tid as usize] = by_run.1;
            compared += 1;
        } else {
            gate.step(tid, &mut calls[tid as usize]);
        }
    }
    assert!(compared > 1000);
}
