use completion::protocol::{Action, Call, Event};
use completion::signal::{GateError, Wake};

/// Answers every action as a host would on which nothing ever blocks and the
/// flag holds `flag`, and returns the actions in the order asked.
fn play(call: &mut Call, flag: bool) -> Vec<Action> {
    let mut asked = Vec::new();
    while let Some(action) = call.action() {
        asked.push(action);
        let event = match action {
            Action::Observe => Event::Flag(flag),
            Action::Wait => Event::Woken(Wake::Interrupted),
            _ => Event::Done,
        };
        call.advance(event);
    }
    asked
}

#[test]
fn write_asks_for_its_actions_in_order() {
    let mut call = Call::write(4);
    assert_eq!(call.result(), None);
    let asked = play(&mut call, false);
    assert_eq!(
        asked,
        vec![
            Action::Acquire,
            Action::Store(true),
            Action::Release,
            Action::NotifyOne,
            Action::NotifyAll,
            Action::ReleaseWaiters,
        ]
    );
    assert_eq!(call.action(), None);
    assert_eq!(call.result(), Some(Ok(4)));
}

#[test]
fn write_returns_the_length_it_was_given() {
    for len in [0usize, 1, 4, 4096, usize::MAX] {
        let mut call = Call::write(len);
        play(&mut call, true);
        assert_eq!(call.result(), Some(Ok(len)));
    }
}

#[test]
fn read_of_a_set_flag_asks_for_its_actions_in_order() {
    let mut call = Call::read(16, 0);
    let asked = play(&mut call, true);
    assert_eq!(
        asked,
        vec![
            Action::Acquire,
            Action::Observe,
            Action::Store(false),
            Action::Release,
            Action::NotifyOne,
            Action::NotifyAll,
            Action::ReleaseWaiters,
        ]
    );
    assert_eq!(call.result(), Some(Ok(0)));
}

#[test]
fn read_of_a_clear_flag_waits() {
    let mut call = Call::read(16, 0);
    call.advance(Event::Done);
    assert_eq!(call.action(), Some(Action::Observe));
    call.advance(Event::Flag(false));
    assert_eq!(call.action(), Some(Action::Wait));
    assert_eq!(call.result(), None);
}

#[test]
fn read_looks_again_after_every_wake() {
    let mut call = Call::read(16, 0);
    call.advance(Event::Done);
    for _ in 0..5 {
        call.advance(Event::Flag(false));
        assert_eq!(call.action(), Some(Action::Wait));
        call.advance(Event::Woken(Wake::Ready));
        assert_eq!(call.action(), Some(Action::Observe));
    }
    call.advance(Event::Flag(true));
    assert_eq!(call.action(), Some(Action::Store(false)));
}

#[test]
fn interrupted_read_gives_up_the_lock_and_fails() {
    let mut call = Call::read(16, 0);
    let asked = play(&mut call, false);
    assert_eq!(
        asked,
        vec![Action::Acquire, Action::Observe, Action::Wait, Action::Release]
    );
    assert_eq!(call.result(), Some(Err(GateError::Interrupted)));
}

#[test]
fn read_with_empty_destination_is_over_at_once() {
    let mut call = Call::read(0, 0);
    assert_eq!(call.action(), None);
    assert_eq!(call.result(), Some(Ok(0)));
    assert_eq!(play(&mut call, true), vec![]);
}

#[test]
fn read_at_nonzero_offset_is_over_at_once() {
    for offset in [1u64, 2, 4096, u64::MAX] {
        let call = Call::read(16, offset);
        assert_eq!(call.action(), None);
        assert_eq!(call.result(), Some(Ok(0)));
    }
    let call = Call::read(0, 7);
    assert_eq!(call.result(), Some(Ok(0)));
}

#[test]
fn report_that_answers_nothing_is_ignored() {
    let mut call = Call::read(16, 0);
    call.advance(Event::Flag(true));
    assert_eq!(call.action(), Some(Action::Acquire));
    call.advance(Event::Woken(Wake::Interrupted));
    assert_eq!(call.action(), Some(Action::Acquire));
    call.advance(Event::Done);
    assert_eq!(call.action(), Some(Action::Observe));
    call.advance(Event::Done);
    assert_eq!(call.action(), Some(Action::Observe));
    call.advance(Event::Flag(false));
    call.advance(Event::Done);
    call.advance(Event::Flag(true));
    assert_eq!(call.action(), Some(Action::Wait));
}

#[test]
fn finished_call_stays_finished() {
    let mut call = Call::write(3);
    play(&mut call, false);
    for event in [
        Event::Done,
        Event::Flag(true),
        Event::Flag(false),
        Event::Woken(Wake::Ready),
        Event::Woken(Wake::Interrupted),
    ] {
        call.advance(event);
        assert_eq!(call.action(), None);
        assert_eq!(call.result(), Some(Ok(3)));
    }
}
