use flipclock::clock::{
    animation_progress, display_time, render_due, ClockReading, CyclePhase, FlipClock,
    UnitChanges, WallTime, FRAME_PAUSE_MS, RENDER_INTERVAL_MS,
};
use flipclock::config::ClockSettings;
use flipclock::graphics_engine::{AnimationState, EngineRequest, TimeDigitPosition};
use flipclock::layout::calculate_layout;

fn reading(hour: u32, minute: u32, second: u32) -> ClockReading {
    ClockReading { hour, minute, second, is_pm: false }
}

fn flip(value: u32, past: Option<u32>, progress: u32) -> Option<AnimationState> {
    Some(AnimationState {
        current_value: value,
        previous_value: past,
        is_animating: true,
        progress,
    })
}

fn rendered(clock: &mut FlipClock, r: ClockReading) {
    let cycle = clock.start_cycle(r);
    clock.finish_cycle(&cycle);
}

#[test]
fn new_clock_has_rendered_nothing() {
    let mut s = ClockSettings::default();
    s.card_gap = 3;
    s.font_path = "/x.ttf".to_string();
    let clock = FlipClock::new(&s);
    assert_eq!(clock.past_hour, None);
    assert_eq!(clock.past_minute, None);
    assert_eq!(clock.past_second, None);
    assert_eq!(format!("{:?}", clock.settings), format!("{:?}", s));
}

#[test]
fn current_time_is_what_the_cards_show() {
    let clock = FlipClock::new(&ClockSettings::default());
    let now = clock.get_current_time(WallTime { hour: 13, minute: 7, second: 59 });
    assert_eq!(now, ClockReading { hour: 13, minute: 7, second: 59, is_pm: false });
    let mut s = ClockSettings::default();
    s.use_24hour = false;
    let clock = FlipClock::new(&s);
    let now = clock.get_current_time(WallTime { hour: 13, minute: 7, second: 59 });
    assert_eq!(now, ClockReading { hour: 1, minute: 7, second: 59, is_pm: true });
    let now = clock.get_current_time(WallTime { hour: 0, minute: 0, second: 0 });
    assert_eq!(now, ClockReading { hour: 0, minute: 0, second: 0, is_pm: false });
}

#[test]
fn time_on_the_24_hour_clock() {
    let t = WallTime { hour: 9, minute: 5, second: 3 };
    assert_eq!(display_time(true, t), ClockReading { hour: 9, minute: 5, second: 3, is_pm: false });
    let t = WallTime { hour: 23, minute: 59, second: 59 };
    assert_eq!(
        display_time(true, t),
        ClockReading { hour: 23, minute: 59, second: 59, is_pm: false }
    );
}

#[test]
fn time_on_the_12_hour_clock() {
    let at = |hour| display_time(false, WallTime { hour, minute: 0, second: 0 });
    assert_eq!(at(13), ClockReading { hour: 1, minute: 0, second: 0, is_pm: true });
    assert_eq!(at(0), ClockReading { hour: 0, minute: 0, second: 0, is_pm: false });
    assert_eq!(at(11), ClockReading { hour: 11, minute: 0, second: 0, is_pm: false });
    assert_eq!(at(12), ClockReading { hour: 0, minute: 0, second: 0, is_pm: true });
    assert_eq!(at(23), ClockReading { hour: 11, minute: 0, second: 0, is_pm: true });
}

#[test]
fn first_cycle_reports_every_unit_changed() {
    let clock = FlipClock::new(&ClockSettings::default());
    for r in [reading(0, 0, 0), reading(9, 5, 3), reading(23, 59, 59)] {
        let cycle = clock.start_cycle(r);
        assert_eq!(cycle.changes, UnitChanges { hour: true, minute: true, second: true });
        assert_eq!(cycle.phase, CyclePhase::Opening);
        assert_eq!(cycle.reading, r);
        assert_eq!(cycle.layout, calculate_layout(&clock.settings));
    }
}

#[test]
fn later_cycles_report_what_differs() {
    let mut clock = FlipClock::new(&ClockSettings::default());
    rendered(&mut clock, reading(9, 5, 3));
    assert_eq!((clock.past_hour, clock.past_minute, clock.past_second), (Some(9), Some(5), Some(3)));
    let cycle = clock.start_cycle(reading(9, 6, 3));
    assert_eq!(cycle.changes, UnitChanges { hour: false, minute: true, second: false });
    assert!(cycle.changes.any_changed());
    let cycle = clock.start_cycle(reading(9, 5, 3));
    assert_eq!(cycle.changes, UnitChanges { hour: false, minute: false, second: false });
    assert!(!cycle.changes.any_changed());
    let cycle = clock.start_cycle(reading(10, 0, 0));
    assert_eq!(cycle.changes, UnitChanges { hour: true, minute: true, second: true });
}

#[test]
fn finishing_stores_every_unit() {
    let mut clock = FlipClock::new(&ClockSettings::default());
    rendered(&mut clock, reading(9, 5, 3));
    rendered(&mut clock, reading(9, 6, 4));
    assert_eq!((clock.past_hour, clock.past_minute, clock.past_second), (Some(9), Some(6), Some(4)));
}

#[test]
fn progress_is_elapsed_over_duration() {
    assert_eq!(animation_progress(0, 500), 0);
    assert_eq!(animation_progress(125, 500), 250);
    assert_eq!(animation_progress(375, 500), 750);
    assert_eq!(animation_progress(499, 500), 998);
    assert_eq!(animation_progress(500, 500), 1000);
    assert_eq!(animation_progress(u64::MAX, 500), 1000);
    assert_eq!(animation_progress(1, 3), 333);
    assert_eq!(animation_progress(0, 0), 1000);
    assert_eq!(animation_progress(4_294_967_294, u32::MAX), 999);
}

#[test]
fn render_is_due_after_a_quarter_second() {
    assert_eq!(RENDER_INTERVAL_MS, 250);
    assert!(!render_due(0));
    assert!(!render_due(249));
    assert!(render_due(250));
    assert!(render_due(u64::MAX));
}

#[test]
fn frame_at_rest() {
    let mut clock = FlipClock::new(&ClockSettings::default());
    rendered(&mut clock, reading(9, 5, 3));
    let cycle = clock.start_cycle(reading(9, 6, 4));
    let layout = calculate_layout(&clock.settings);
    assert_eq!(
        clock.frame_requests(&cycle, None),
        vec![
            EngineRequest::Clear,
            EngineRequest::RenderDigit {
                value: 9,
                position: TimeDigitPosition::Hour,
                rect: layout.hour_rect,
                animation: None,
            },
            EngineRequest::RenderDigit {
                value: 6,
                position: TimeDigitPosition::Minute,
                rect: layout.minute_rect,
                animation: None,
            },
            EngineRequest::RenderAmPmIndicator { rect: layout.hour_rect, is_pm: false },
            EngineRequest::Present,
        ]
    );
}

#[test]
fn flip_frame_animates_only_changed_units() {
    let mut s = ClockSettings::default();
    s.show_seconds = true;
    let mut clock = FlipClock::new(&s);
    rendered(&mut clock, reading(9, 5, 3));
    let cycle = clock.start_cycle(ClockReading { hour: 9, minute: 6, second: 3, is_pm: true });
    let layout = calculate_layout(&s);
    assert_eq!(
        clock.frame_requests(&cycle, Some(250)),
        vec![
            EngineRequest::Clear,
            EngineRequest::RenderDigit {
                value: 9,
                position: TimeDigitPosition::Hour,
                rect: layout.hour_rect,
                animation: None,
            },
            EngineRequest::RenderDigit {
                value: 6,
                position: TimeDigitPosition::Minute,
                rect: layout.minute_rect,
                animation: flip(6, Some(5), 250),
            },
            EngineRequest::RenderDigit {
                value: 3,
                position: TimeDigitPosition::Second,
                rect: layout.second_rect.unwrap(),
                animation: None,
            },
            EngineRequest::RenderAmPmIndicator { rect: layout.hour_rect, is_pm: true },
            EngineRequest::Present,
        ]
    );
}

#[test]
fn no_second_card_without_seconds() {
    let s = ClockSettings::default();
    assert!(!s.show_seconds);
    let clock = FlipClock::new(&s);
    let cycle = clock.start_cycle(reading(9, 5, 3));
    assert!(cycle.layout.second_rect.is_none());
    assert!(cycle.changes.second);
    for progress in [None, Some(0), Some(500), Some(1000)] {
        for request in clock.frame_requests(&cycle, progress) {
            assert!(!matches!(
                request,
                EngineRequest::RenderDigit { position: TimeDigitPosition::Second, .. }
            ));
        }
    }
}

#[test]
fn cycle_without_animation_draws_one_frame() {
    let mut s = ClockSettings::default();
    s.animate_flip = false;
    let mut clock = FlipClock::new(&s);
    let mut cycle = clock.start_cycle(reading(9, 5, 3));

    let step = clock.advance(&mut cycle, 0);
    assert_eq!(step.requests, vec![EngineRequest::Clear]);
    assert_eq!((step.pause_ms, step.finished), (0, false));
    assert_eq!(cycle.phase, CyclePhase::Still);

    let expected = clock.frame_requests(&cycle, None);
    let step = clock.advance(&mut cycle, 1);
    assert_eq!(step.requests, expected);
    assert_eq!((step.pause_ms, step.finished), (0, true));
    assert_eq!(cycle.phase, CyclePhase::Done);

    let step = clock.advance(&mut cycle, 2);
    assert_eq!(step.requests, vec![]);
    assert!(step.finished);

    clock.finish_cycle(&cycle);
    assert_eq!(clock.past_minute, Some(5));
}

#[test]
fn animated_cycle_runs_until_its_time_is_up() {
    let mut clock = FlipClock::new(&ClockSettings::default());
    rendered(&mut clock, reading(9, 5, 3));
    let mut cycle = clock.start_cycle(reading(9, 6, 3));

    let step = clock.advance(&mut cycle, 0);
    assert_eq!(step.requests, vec![EngineRequest::Clear]);
    assert!(!step.finished);
    assert_eq!(cycle.phase, CyclePhase::Animating);

    for elapsed in [0u64, 125, 375, 499] {
        let expected = clock.frame_requests(&cycle, Some(animation_progress(elapsed, 500)));
        let step = clock.advance(&mut cycle, elapsed);
        assert_eq!(step.requests, expected);
        assert_eq!(step.pause_ms, FRAME_PAUSE_MS);
        assert!(!step.finished);
        assert_eq!(cycle.phase, CyclePhase::Animating);
    }
    let step = clock.advance(&mut cycle, 500);
    assert_eq!(step.requests, vec![]);
    assert_eq!((step.pause_ms, step.finished), (0, true));
    assert_eq!(cycle.phase, CyclePhase::Done);
}

#[test]
fn animated_cycle_with_nothing_changed_ends_after_one_frame() {
    let mut clock = FlipClock::new(&ClockSettings::default());
    rendered(&mut clock, reading(9, 5, 3));
    let mut cycle = clock.start_cycle(reading(9, 5, 3));
    clock.advance(&mut cycle, 0);
    let expected = clock.frame_requests(&cycle, Some(20));
    let step = clock.advance(&mut cycle, 10);
    assert_eq!(step.requests, expected);
    assert_eq!(expected, clock.frame_requests(&cycle, None));
    assert_eq!((step.pause_ms, step.finished), (16, true));
    assert_eq!(cycle.phase, CyclePhase::Done);
}

#[test]
fn animation_without_duration_draws_no_frame() {
    let mut s = ClockSettings::default();
    s.animation_duration_ms = 0;
    let clock = FlipClock::new(&s);
    let mut cycle = clock.start_cycle(reading(9, 5, 3));
    let step = clock.advance(&mut cycle, 0);
    assert_eq!(step.requests, vec![EngineRequest::Clear]);
    let step = clock.advance(&mut cycle, 0);
    assert_eq!(step.requests, vec![]);
    assert!(step.finished);
}

#[test]
fn still_frame_does_not_depend_on_what_was_rendered() {
    let mut s = ClockSettings::default();
    s.animate_flip = false;
    let fresh = FlipClock::new(&s);
    let mut used = FlipClock::new(&s);
    rendered(&mut used, reading(1, 2, 3));
    let r = reading(9, 5, 3);
    assert_eq!(
        fresh.frame_requests(&fresh.start_cycle(r), None),
        used.frame_requests(&used.start_cycle(r), None)
    );
}
