//! When input ends the clock.
//!
//! The events of one poll are looked at in the order they came. The first
//! event that is no pointer motion settles the poll; pointer motion alone
//! ends the clock only when more than four such events come in a row.

use crate::config::ClockSettings;
use vstd::prelude::*;

verus! {

/// So many pointer motions in a row are put up with in one poll.
pub const MOTION_LIMIT: u32 = 4;

/// A key, as far as the clock tells keys apart.
#[derive(Clone, Copy, Debug, PartialEq, Eq)]
pub enum Key {
    Escape,
    Return,
    Space,
    Other,
}

/// An input event, as far as the clock tells events apart.
#[derive(Clone, Copy, Debug, PartialEq, Eq)]
pub enum InputEvent {
    /// The window was asked to close.
    Quit,
    KeyDown(Key),
    MouseButtonDown,
    MouseButtonUp,
    MouseWheel,
    MouseMotion,
    Other,
}

/// What an event means for the poll it came in.
#[derive(Clone, Copy, Debug, PartialEq, Eq)]
pub enum EventOutcome {
    /// The clock ends.
    Quit,
    /// The poll is over and the clock goes on.
    Stay,
    /// The next event of the poll decides.
    Continue,
}

/// What `event` means after `motions` pointer motions in a row.
///
/// A close request and the Escape, Return and Space keys end the clock.
/// Any other key, a mouse button and the wheel end it where every input
/// closes. A pointer motion ends it once the limit is passed.
pub open spec fn outcome_of(close_on_any_input: bool, motions: int, event: InputEvent) -> EventOutcome {
    match event {
        InputEvent::Quit => EventOutcome::Quit,
        InputEvent::KeyDown(Key::Escape) => EventOutcome::Quit,
        InputEvent::KeyDown(Key::Return) => EventOutcome::Quit,
        InputEvent::KeyDown(Key::Space) => EventOutcome::Quit,
        InputEvent::KeyDown(Key::Other) | InputEvent::MouseButtonDown | InputEvent::MouseButtonUp
        | InputEvent::MouseWheel => if close_on_any_input {
            EventOutcome::Quit
        } else {
            EventOutcome::Stay
        },
        InputEvent::MouseMotion => if motions >= MOTION_LIMIT as int {
            EventOutcome::Quit
        } else {
            EventOutcome::Continue
        },
        InputEvent::Other => EventOutcome::Stay,
    }
}

/// Whether the events of a poll, from the event number `from` on and
/// after `motions` pointer motions in a row, end the clock.
pub open spec fn quits_from(
    close_on_any_input: bool,
    events: Seq<InputEvent>,
    from: int,
    motions: int,
) -> bool
    decreases events.len() - from,
{
    if from < 0 || from >= events.len() {
        false
    } else {
        match outcome_of(close_on_any_input, motions, events[from]) {
            EventOutcome::Quit => true,
            EventOutcome::Stay => false,
            EventOutcome::Continue => quits_from(close_on_any_input, events, from + 1, motions + 1),
        }
    }
}

/// Whether the events of one poll end the clock.
pub open spec fn quits(close_on_any_input: bool, events: Seq<InputEvent>) -> bool {
    quits_from(close_on_any_input, events, 0, 0)
}

/// The events of one poll, taken one by one.
#[derive(Clone, Copy, Debug, PartialEq, Eq)]
pub struct InputPoll {
    /// Pointer motions seen in a row, counted up to the limit.
    pub motions: u32,
}

impl InputPoll {
    pub open spec fn well_formed(&self) -> bool {
        self.motions <= MOTION_LIMIT
    }

    /// A poll that has seen nothing yet.
    pub fn new() -> (poll: Self)
        ensures
            poll.motions == 0,
            poll.well_formed(),
    {
        InputPoll { motions: 0 }
    }

    /// Takes the next event of the poll and says what it means.
    pub fn on_event(&mut self, close_on_any_input: bool, event: InputEvent) -> (outcome:
        EventOutcome)
        requires
            old(self).well_formed(),
        ensures
            outcome == outcome_of(close_on_any_input, old(self).motions as int, event),
            final(self).well_formed(),
            final(self).motions == if outcome == EventOutcome::Continue {
                old(self).motions + 1
            } else {
                old(self).motions as int
            },
    {
        match event {
            InputEvent::Quit => EventOutcome::Quit,
            InputEvent::KeyDown(key) => match key {
                Key::Escape | Key::Return | Key::Space => EventOutcome::Quit,
                Key::Other => if close_on_any_input {
                    EventOutcome::Quit
                } else {
                    EventOutcome::Stay
                },
            },
            InputEvent::MouseButtonDown | InputEvent::MouseButtonUp | InputEvent::MouseWheel => {
                if close_on_any_input {
                    EventOutcome::Quit
                } else {
                    EventOutcome::Stay
                }
            },
            InputEvent::MouseMotion => {
                if self.motions >= MOTION_LIMIT {
                    EventOutcome::Quit
                } else {
                    self.motions = self.motions + 1;
                    EventOutcome::Continue
                }
            },
            InputEvent::Other => EventOutcome::Stay,
        }
    }
}

/// Whether the events of one poll end the clock.
pub fn handle_events(settings: &ClockSettings, events: &Vec<InputEvent>) -> (quit: bool)
    ensures
        quit == quits(settings.close_on_any_input, events@),
{
    let mut poll = InputPoll::new();
    let mut i: usize = 0;
    while i < events.len()
        invariant
            i <= events.len(),
            poll.well_formed(),
            quits(settings.close_on_any_input, events@) == quits_from(
                settings.close_on_any_input,
                events@,
                i as int,
                poll.motions as int,
            ),
        decreases events.len() - i,
    {
        match poll.on_event(settings.close_on_any_input, events[i]) {
            EventOutcome::Quit => {
                return true;
            },
            EventOutcome::Stay => {
                return false;
            },
            EventOutcome::Continue => {},
        }
        i = i + 1;
    }
    false
}

/// Pointer motion alone ends the clock exactly when a poll starts with
/// more than the limit of motions.
pub proof fn lemma_motion_run_quits(close_on_any_input: bool, events: Seq<InputEvent>)
    requires
        forall|i: int| 0 <= i < events.len() ==> events[i] == InputEvent::MouseMotion,
    ensures
        quits(close_on_any_input, events) == (events.len() > MOTION_LIMIT),
{
    lemma_motion_run_from(close_on_any_input, events, 0);
}

proof fn lemma_motion_run_from(close_on_any_input: bool, events: Seq<InputEvent>, from: int)
    requires
        forall|i: int| 0 <= i < events.len() ==> events[i] == InputEvent::MouseMotion,
        0 <= from <= MOTION_LIMIT,
    ensures
        quits_from(close_on_any_input, events, from, from) == (events.len() > MOTION_LIMIT),
    decreases MOTION_LIMIT - from,
{
    if from < events.len() && from < MOTION_LIMIT {
        lemma_motion_run_from(close_on_any_input, events, from + 1);
    }
}

} // verus!
