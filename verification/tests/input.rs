use flipclock::config::ClockSettings;
use flipclock::input::{handle_events, EventOutcome, InputEvent, InputPoll, Key};

fn settings(close_on_any_input: bool) -> ClockSettings {
    let mut s = ClockSettings::default();
    s.close_on_any_input = close_on_any_input;
    s
}

#[test]
fn no_events_no_quit() {
    assert!(!handle_events(&settings(false), &vec![]));
    assert!(!handle_events(&settings(true), &vec![]));
}

#[test]
fn close_request_and_chosen_keys_quit() {
    for event in [
        InputEvent::Quit,
        InputEvent::KeyDown(Key::Escape),
        InputEvent::KeyDown(Key::Return),
        InputEvent::KeyDown(Key::Space),
    ] {
        assert!(handle_events(&settings(false), &vec![event]));
        assert!(handle_events(&settings(true), &vec![event]));
    }
}

#[test]
fn other_input_quits_only_when_configured() {
    for event in [
        InputEvent::KeyDown(Key::Other),
        InputEvent::MouseButtonDown,
        InputEvent::MouseButtonUp,
        InputEvent::MouseWheel,
    ] {
        assert!(!handle_events(&settings(false), &vec![event, InputEvent::Quit]));
        assert!(handle_events(&settings(true), &vec![event]));
    }
    assert!(!handle_events(&settings(true), &vec![InputEvent::Other, InputEvent::Quit]));
}

#[test]
fn more_than_four_motions_quit() {
    let motions = |n: usize| vec![InputEvent::MouseMotion; n];
    for n in 0..=4 {
        assert!(!handle_events(&settings(false), &motions(n)));
    }
    assert!(handle_events(&settings(false), &motions(5)));
    assert!(handle_events(&settings(false), &motions(50)));
}

#[test]
fn first_other_event_after_motion_decides() {
    let m = InputEvent::MouseMotion;
    assert!(handle_events(&settings(false), &vec![m, m, InputEvent::Quit]));
    assert!(!handle_events(&settings(false), &vec![m, m, InputEvent::Other, m, m, m, m, m]));
    assert!(!handle_events(
        &settings(false),
        &vec![m, m, m, m, InputEvent::MouseWheel, m]
    ));
    assert!(handle_events(&settings(true), &vec![m, m, m, m, InputEvent::MouseWheel]));
}

#[test]
fn poll_takes_events_one_by_one() {
    let mut poll = InputPoll::new();
    assert_eq!(poll.motions, 0);
    for seen in 1..=4 {
        assert_eq!(poll.on_event(false, InputEvent::MouseMotion), EventOutcome::Continue);
        assert_eq!(poll.motions, seen);
    }
    assert_eq!(poll.on_event(false, InputEvent::MouseMotion), EventOutcome::Quit);
    assert_eq!(poll.motions, 4);
    assert_eq!(poll.on_event(false, InputEvent::KeyDown(Key::Other)), EventOutcome::Stay);
    assert_eq!(poll.on_event(true, InputEvent::KeyDown(Key::Other)), EventOutcome::Quit);
    assert_eq!(poll.on_event(false, InputEvent::Other), EventOutcome::Stay);
    assert_eq!(poll.on_event(false, InputEvent::Quit), EventOutcome::Quit);
}
