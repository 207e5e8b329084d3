//! The timing driver: takes the time of day, finds out which cards
//! changed, and decides frame by frame what a render cycle draws and when
//! it is over.
//!
//! The driver reads no clock, draws nothing and never waits. It is handed
//! the time, and hands out what is to be drawn and how long to pause;
//! whoever runs it draws, pauses and comes back with the time that has
//! passed.

use crate::config::ClockSettings;
use crate::graphics_engine::{
    AnimationState, ClockLayout, EngineRequest, TimeDigitPosition, PROGRESS_SCALE,
};
use crate::layout::{calculate_layout, layout_of};
use vstd::prelude::*;

verus! {

/// A render cycle is due once this many milliseconds have passed since the
/// last one began.
pub const RENDER_INTERVAL_MS: u64 = 250;

/// The pause between two frames of a flip, and between two polls for input,
/// in milliseconds.
pub const FRAME_PAUSE_MS: u32 = 16;

/// A time of day on the 24-hour clock.
#[derive(Clone, Copy, Debug, PartialEq, Eq)]
pub struct WallTime {
    pub hour: u32,
    pub minute: u32,
    pub second: u32,
}

impl WallTime {
    pub open spec fn well_formed(&self) -> bool {
        self.hour < 24 && self.minute < 60 && self.second < 60
    }
}

/// The time as the cards show it. On the 12-hour clock the hour runs from
/// 0 to 11 and `is_pm` tells the half of the day.
#[derive(Clone, Copy, Debug, PartialEq, Eq)]
pub struct ClockReading {
    pub hour: u32,
    pub minute: u32,
    pub second: u32,
    pub is_pm: bool,
}

/// What the cards show at `time`: the time itself on the 24-hour clock,
/// and the hour within its half of the day on the 12-hour clock.
pub open spec fn displayed_reading(use_24hour: bool, time: WallTime) -> ClockReading {
    if use_24hour {
        ClockReading { hour: time.hour, minute: time.minute, second: time.second, is_pm: false }
    } else {
        ClockReading {
            hour: (time.hour % 12) as u32,
            minute: time.minute,
            second: time.second,
            is_pm: time.hour >= 12,
        }
    }
}

/// A reading that some time of day gives.
pub open spec fn possible_reading(use_24hour: bool, reading: ClockReading) -> bool {
    &&& reading.minute < 60
    &&& reading.second < 60
    &&& if use_24hour {
        reading.hour < 24 && !reading.is_pm
    } else {
        reading.hour < 12
    }
}

/// Converts a time of day into what the cards show.
pub fn display_time(use_24hour: bool, time: WallTime) -> (reading: ClockReading)
    ensures
        reading == displayed_reading(use_24hour, time),
        time.well_formed() ==> possible_reading(use_24hour, reading),
{
    if use_24hour {
        ClockReading { hour: time.hour, minute: time.minute, second: time.second, is_pm: false }
    } else {
        ClockReading {
            hour: time.hour % 12,
            minute: time.minute,
            second: time.second,
            is_pm: time.hour >= 12,
        }
    }
}

/// A unit counts as changed when nothing was rendered for it yet, or
/// something else than `now`.
pub open spec fn unit_changed(past: Option<u32>, now: u32) -> bool {
    match past {
        None => true,
        Some(value) => value != now,
    }
}

/// Which of the three units changed since they were last rendered.
#[derive(Clone, Copy, Debug, PartialEq, Eq)]
pub struct UnitChanges {
    pub hour: bool,
    pub minute: bool,
    pub second: bool,
}

impl UnitChanges {
    pub open spec fn any(&self) -> bool {
        self.hour || self.minute || self.second
    }

    pub fn any_changed(&self) -> (any: bool)
        ensures
            any == self.any(),
    {
        self.hour || self.minute || self.second
    }
}

/// Where a render cycle stands.
#[derive(Clone, Copy, Debug, PartialEq, Eq)]
pub enum CyclePhase {
    /// Nothing is drawn yet: the canvas is cleared next.
    Opening,
    /// Frames of the flip are drawn until its time is up.
    Animating,
    /// One frame at rest is drawn next.
    Still,
    /// The cycle is over.
    Done,
}

/// One render cycle: what the clock read, where the cards go, what
/// changed, and how far the cycle has come.
#[derive(Clone, Copy, Debug, PartialEq, Eq)]
pub struct RenderCycle {
    pub reading: ClockReading,
    pub layout: ClockLayout,
    pub changes: UnitChanges,
    pub phase: CyclePhase,
}

/// What to do next in a render cycle: carry out `requests` in order, then
/// pause for `pause_ms` milliseconds; the cycle is over if `finished`.
#[derive(Debug)]
pub struct CycleStep {
    pub requests: Vec<EngineRequest>,
    pub pause_ms: u32,
    pub finished: bool,
}

/// The timing driver. It owns the values that were rendered last.
#[derive(Debug)]
pub struct FlipClock {
    pub settings: ClockSettings,
    pub past_hour: Option<u32>,
    pub past_minute: Option<u32>,
    pub past_second: Option<u32>,
}

/// The progress of a flip after `elapsed_ms` of `duration_ms`, in
/// thousandths, rounded down; a flip whose time is up has progress 1000.
pub open spec fn progress_at(elapsed_ms: int, duration_ms: int) -> int {
    if elapsed_ms >= duration_ms {
        PROGRESS_SCALE as int
    } else {
        elapsed_ms * PROGRESS_SCALE as int / duration_ms
    }
}

/// The animation state handed to the card of one unit in a frame with the
/// given progress: a flip from the value rendered last for a unit that
/// changed, and none for a unit that did not, or in a frame at rest.
pub open spec fn unit_animation(
    changed: bool,
    value: u32,
    past: Option<u32>,
    progress: Option<u32>,
) -> Option<AnimationState> {
    match progress {
        Some(p) if changed => Some(
            AnimationState { current_value: value, previous_value: past, is_animating: true, progress: p },
        ),
        _ => None,
    }
}

impl FlipClock {
    pub open spec fn well_formed(&self) -> bool {
        self.settings.well_formed()
    }

    /// Which units differ in `reading` from what was rendered last.
    pub open spec fn changes_in(&self, reading: ClockReading) -> UnitChanges {
        UnitChanges {
            hour: unit_changed(self.past_hour, reading.hour),
            minute: unit_changed(self.past_minute, reading.minute),
            second: unit_changed(self.past_second, reading.second),
        }
    }

    /// The render cycle that `reading` opens.
    pub open spec fn cycle_for(&self, reading: ClockReading) -> RenderCycle {
        RenderCycle {
            reading,
            layout: layout_of(self.settings),
            changes: self.changes_in(reading),
            phase: CyclePhase::Opening,
        }
    }

    /// The request that draws the card of the seconds, where seconds are
    /// shown and the layout has a card for them.
    pub open spec fn second_request(&self, cycle: RenderCycle, progress: Option<u32>) -> Seq<
        EngineRequest,
    > {
        match cycle.layout.second_rect {
            Some(rect) if self.settings.show_seconds => seq![
                EngineRequest::RenderDigit {
                    value: cycle.reading.second,
                    position: TimeDigitPosition::Second,
                    rect,
                    animation: unit_animation(
                        cycle.changes.second,
                        cycle.reading.second,
                        self.past_second,
                        progress,
                    ),
                },
            ],
            _ => Seq::empty(),
        }
    }

    /// One frame: clear, the hour and minute cards, the second card if it
    /// is shown, the AM and PM label, present. `progress` is the progress
    /// of the flip, and `None` for a frame at rest.
    pub open spec fn frame(&self, cycle: RenderCycle, progress: Option<u32>) -> Seq<
        EngineRequest,
    > {
        seq![
            EngineRequest::Clear,
            EngineRequest::RenderDigit {
                value: cycle.reading.hour,
                position: TimeDigitPosition::Hour,
                rect: cycle.layout.hour_rect,
                animation: unit_animation(
                    cycle.changes.hour,
                    cycle.reading.hour,
                    self.past_hour,
                    progress,
                ),
            },
            EngineRequest::RenderDigit {
                value: cycle.reading.minute,
                position: TimeDigitPosition::Minute,
                rect: cycle.layout.minute_rect,
                animation: unit_animation(
                    cycle.changes.minute,
                    cycle.reading.minute,
                    self.past_minute,
                    progress,
                ),
            },
        ] + self.second_request(cycle, progress) + seq![
            EngineRequest::RenderAmPmIndicator {
                rect: cycle.layout.hour_rect,
                is_pm: cycle.reading.is_pm,
            },
            EngineRequest::Present,
        ]
    }

    /// A flip frame is drawn in the animating phase while the time of the
    /// flip is not up.
    pub open spec fn draws_flip_frame(&self, cycle: RenderCycle, elapsed_ms: u64) -> bool {
        cycle.phase == CyclePhase::Animating && elapsed_ms < self.settings.animation_duration_ms
    }

    /// What the next step of the cycle asks the engine for.
    pub open spec fn step_requests(&self, cycle: RenderCycle, elapsed_ms: u64) -> Seq<
        EngineRequest,
    > {
        match cycle.phase {
            CyclePhase::Opening => seq![EngineRequest::Clear],
            CyclePhase::Still => self.frame(cycle, None),
            CyclePhase::Animating => if self.draws_flip_frame(cycle, elapsed_ms) {
                self.frame(
                    cycle,
                    Some(
                        progress_at(
                            elapsed_ms as int,
                            self.settings.animation_duration_ms as int,
                        ) as u32,
                    ),
                )
            } else {
                Seq::empty()
            },
            CyclePhase::Done => Seq::empty(),
        }
    }

    /// The phase that the next step of the cycle leads to. After the
    /// canvas is cleared, flips are animated if the settings say so. The
    /// animation ends when its time is up, and after the first frame if no
    /// unit changed.
    pub open spec fn phase_after(&self, cycle: RenderCycle, elapsed_ms: u64) -> CyclePhase {
        match cycle.phase {
            CyclePhase::Opening => if self.settings.animate_flip {
                CyclePhase::Animating
            } else {
                CyclePhase::Still
            },
            CyclePhase::Animating => if self.draws_flip_frame(cycle, elapsed_ms)
                && cycle.changes.any() {
                CyclePhase::Animating
            } else {
                CyclePhase::Done
            },
            CyclePhase::Still => CyclePhase::Done,
            CyclePhase::Done => CyclePhase::Done,
        }
    }

    /// The pause after the next step: one frame pause after a frame of a
    /// flip, none otherwise.
    pub open spec fn pause_after(&self, cycle: RenderCycle, elapsed_ms: u64) -> int {
        if self.draws_flip_frame(cycle, elapsed_ms) {
            FRAME_PAUSE_MS as int
        } else {
            0
        }
    }

    /// A driver that has rendered nothing yet.
    pub fn new(settings: &ClockSettings) -> (clock: Self)
        ensures
            clock.settings.same_as(settings),
            settings.well_formed() ==> clock.well_formed(),
            clock.past_hour is None,
            clock.past_minute is None,
            clock.past_second is None,
    {
        FlipClock {
            settings: settings.clone(),
            past_hour: None,
            past_minute: None,
            past_second: None,
        }
    }

    /// What the cards of this clock show at the time of day `time`.
    pub fn get_current_time(&self, time: WallTime) -> (reading: ClockReading)
        ensures
            reading == displayed_reading(self.settings.use_24hour, time),
            time.well_formed() ==> possible_reading(self.settings.use_24hour, reading),
    {
        display_time(self.settings.use_24hour, time)
    }

    /// Opens a render cycle for `reading`: finds the changed units and
    /// computes the layout.
    pub fn start_cycle(&self, reading: ClockReading) -> (cycle: RenderCycle)
        requires
            self.well_formed(),
        ensures
            cycle == self.cycle_for(reading),
    {
        let changes = UnitChanges {
            hour: match self.past_hour {
                None => true,
                Some(past) => past != reading.hour,
            },
            minute: match self.past_minute {
                None => true,
                Some(past) => past != reading.minute,
            },
            second: match self.past_second {
                None => true,
                Some(past) => past != reading.second,
            },
        };
        RenderCycle {
            reading,
            layout: calculate_layout(&self.settings),
            changes,
            phase: CyclePhase::Opening,
        }
    }

    /// The requests that draw one frame of the cycle.
    pub fn frame_requests(&self, cycle: &RenderCycle, progress: Option<u32>) -> (requests: Vec<
        EngineRequest,
    >)
        ensures
            requests@ == self.frame(*cycle, progress),
    {
        let mut requests: Vec<EngineRequest> = Vec::new();
        requests.push(EngineRequest::Clear);
        requests.push(
            EngineRequest::RenderDigit {
                value: cycle.reading.hour,
                position: TimeDigitPosition::Hour,
                rect: cycle.layout.hour_rect,
                animation: animation_for(
                    cycle.changes.hour,
                    cycle.reading.hour,
                    self.past_hour,
                    progress,
                ),
            },
        );
        requests.push(
            EngineRequest::RenderDigit {
                value: cycle.reading.minute,
                position: TimeDigitPosition::Minute,
                rect: cycle.layout.minute_rect,
                animation: animation_for(
                    cycle.changes.minute,
                    cycle.reading.minute,
                    self.past_minute,
                    progress,
                ),
            },
        );
        if self.settings.show_seconds {
            if let Some(rect) = cycle.layout.second_rect {
                requests.push(
                    EngineRequest::RenderDigit {
                        value: cycle.reading.second,
                        position: TimeDigitPosition::Second,
                        rect,
                        animation: animation_for(
                            cycle.changes.second,
                            cycle.reading.second,
                            self.past_second,
                            progress,
                        ),
                    },
                );
            }
        }
        requests.push(
            EngineRequest::RenderAmPmIndicator {
                rect: cycle.layout.hour_rect,
                is_pm: cycle.reading.is_pm,
            },
        );
        requests.push(EngineRequest::Present);
        assert(requests@ =~= self.frame(*cycle, progress));
        requests
    }

    /// Takes the cycle one step further, `elapsed_ms` milliseconds after
    /// its flip began.
    pub fn advance(&self, cycle: &mut RenderCycle, elapsed_ms: u64) -> (step: CycleStep)
        ensures
            step.requests@ == self.step_requests(*old(cycle), elapsed_ms),
            step.pause_ms == self.pause_after(*old(cycle), elapsed_ms),
            step.finished == (final(cycle).phase == CyclePhase::Done),
            final(cycle).phase == self.phase_after(*old(cycle), elapsed_ms),
            final(cycle).reading == old(cycle).reading,
            final(cycle).layout == old(cycle).layout,
            final(cycle).changes == old(cycle).changes,
    {
        match cycle.phase {
            CyclePhase::Opening => {
                let mut requests: Vec<EngineRequest> = Vec::new();
                requests.push(EngineRequest::Clear);
                assert(requests@ =~= seq![EngineRequest::Clear]);
                cycle.phase = if self.settings.animate_flip {
                    CyclePhase::Animating
                } else {
                    CyclePhase::Still
                };
                CycleStep { requests, pause_ms: 0, finished: false }
            },
            CyclePhase::Still => {
                let requests = self.frame_requests(cycle, None);
                cycle.phase = CyclePhase::Done;
                CycleStep { requests, pause_ms: 0, finished: true }
            },
            CyclePhase::Animating => {
                if elapsed_ms < self.settings.animation_duration_ms as u64 {
                    let progress = animation_progress(
                        elapsed_ms,
                        self.settings.animation_duration_ms,
                    );
                    let requests = self.frame_requests(cycle, Some(progress));
                    let finished = !cycle.changes.any_changed();
                    if finished {
                        cycle.phase = CyclePhase::Done;
                    }
                    CycleStep { requests, pause_ms: FRAME_PAUSE_MS, finished }
                } else {
                    cycle.phase = CyclePhase::Done;
                    CycleStep { requests: Vec::new(), pause_ms: 0, finished: true }
                }
            },
            CyclePhase::Done => CycleStep { requests: Vec::new(), pause_ms: 0, finished: true },
        }
    }

    /// Closes a render cycle: what was read becomes what was rendered
    /// last, for every unit, changed or not.
    pub fn finish_cycle(&mut self, cycle: &RenderCycle)
        ensures
            final(self).past_hour == Some(cycle.reading.hour),
            final(self).past_minute == Some(cycle.reading.minute),
            final(self).past_second == Some(cycle.reading.second),
            final(self).settings == old(self).settings,
    {
        self.past_hour = Some(cycle.reading.hour);
        self.past_minute = Some(cycle.reading.minute);
        self.past_second = Some(cycle.reading.second);
    }
}

fn animation_for(changed: bool, value: u32, past: Option<u32>, progress: Option<u32>) -> (animation:
    Option<AnimationState>)
    ensures
        animation == unit_animation(changed, value, past, progress),
{
    match progress {
        Some(p) => if changed {
            Some(
                AnimationState {
                    current_value: value,
                    previous_value: past,
                    is_animating: true,
                    progress: p,
                },
            )
        } else {
            None
        },
        None => None,
    }
}

/// The progress of a flip, in thousandths, `elapsed_ms` after it began.
pub fn animation_progress(elapsed_ms: u64, duration_ms: u32) -> (progress: u32)
    ensures
        progress == progress_at(elapsed_ms as int, duration_ms as int),
        progress <= PROGRESS_SCALE,
{
    if elapsed_ms >= duration_ms as u64 {
        PROGRESS_SCALE
    } else {
        assert(elapsed_ms * 1000 / (duration_ms as int) <= 1000) by (nonlinear_arith)
            requires
                0 <= elapsed_ms < duration_ms,
        ;
        (elapsed_ms * (PROGRESS_SCALE as u64) / (duration_ms as u64)) as u32
    }
}

/// Whether the next render cycle is due, `elapsed_ms` milliseconds after
/// the last one began.
pub fn render_due(elapsed_ms: u64) -> (due: bool)
    ensures
        due == (elapsed_ms >= RENDER_INTERVAL_MS),
{
    elapsed_ms >= RENDER_INTERVAL_MS
}

/// On the first render cycle of a driver every unit counts as changed,
/// whatever the clock reads.
pub proof fn lemma_first_cycle_changes_every_unit(clock: FlipClock, reading: ClockReading)
    requires
        clock.past_hour is None,
        clock.past_minute is None,
        clock.past_second is None,
    ensures
        clock.changes_in(reading) == (UnitChanges { hour: true, minute: true, second: true }),
{
}

/// Right after a cycle was closed, the same reading changes no unit.
pub proof fn lemma_rendered_reading_changes_nothing(clock: FlipClock, reading: ClockReading)
    requires
        clock.past_hour == Some(reading.hour),
        clock.past_minute == Some(reading.minute),
        clock.past_second == Some(reading.second),
    ensures
        !clock.changes_in(reading).any(),
{
}

/// Where seconds are not shown the layout has no card for them, and no
/// frame, at rest or in a flip, asks for the card of the seconds.
pub proof fn lemma_no_second_card_without_seconds(
    clock: FlipClock,
    reading: ClockReading,
    progress: Option<u32>,
)
    requires
        clock.well_formed(),
        !clock.settings.show_seconds,
    ensures
        clock.cycle_for(reading).layout.second_rect is None,
        forall|i: int|
            0 <= i < clock.frame(clock.cycle_for(reading), progress).len() ==> !(
            #[trigger] clock.frame(clock.cycle_for(reading), progress)[i] matches EngineRequest::RenderDigit {
                position: TimeDigitPosition::Second,
                ..
            }),
{
}

/// A frame at rest is the same whatever was rendered before: two drivers
/// with the same settings ask for the same frame for the same reading, and
/// every card in it is drawn without animation state.
pub proof fn lemma_still_frame_repeatable(first: FlipClock, second: FlipClock, reading: ClockReading)
    requires
        first.settings == second.settings,
    ensures
        first.frame(first.cycle_for(reading), None) == second.frame(
            second.cycle_for(reading),
            None,
        ),
        forall|i: int|
            0 <= i < first.frame(first.cycle_for(reading), None).len() ==> (
            #[trigger] first.frame(first.cycle_for(reading), None)[i] matches EngineRequest::RenderDigit {
                animation,
                ..
            } ==> animation is None),
{
}

/// In a frame of a flip a card gets animation state exactly if its unit
/// changed; the state names the value rendered last and the progress of
/// the frame.
pub proof fn lemma_flip_frame_animates_changed_units(
    clock: FlipClock,
    reading: ClockReading,
    progress: u32,
)
    ensures
        ({
            let cycle = clock.cycle_for(reading);
            let frame = clock.frame(cycle, Some(progress));
            &&& frame[1] == EngineRequest::RenderDigit {
                value: reading.hour,
                position: TimeDigitPosition::Hour,
                rect: cycle.layout.hour_rect,
                animation: if unit_changed(clock.past_hour, reading.hour) {
                    Some(
                        AnimationState {
                            current_value: reading.hour,
                            previous_value: clock.past_hour,
                            is_animating: true,
                            progress,
                        },
                    )
                } else {
                    None
                },
            }
            &&& frame[2] == EngineRequest::RenderDigit {
                value: reading.minute,
                position: TimeDigitPosition::Minute,
                rect: cycle.layout.minute_rect,
                animation: if unit_changed(clock.past_minute, reading.minute) {
                    Some(
                        AnimationState {
                            current_value: reading.minute,
                            previous_value: clock.past_minute,
                            is_animating: true,
                            progress,
                        },
                    )
                } else {
                    None
                },
            }
        }),
{
}

/// Every card that a step of a cycle asks for lies in the range the
/// engine computes with, and its animation state, if it has one, holds a
/// progress of at most 1.
pub proof fn lemma_cycle_requests_well_formed(
    clock: FlipClock,
    reading: ClockReading,
    phase: CyclePhase,
    elapsed_ms: u64,
)
    requires
        clock.well_formed(),
    ensures
        ({
            let cycle = RenderCycle { phase, ..clock.cycle_for(reading) };
            let requests = clock.step_requests(cycle, elapsed_ms);
            forall|i: int|
                0 <= i < requests.len() ==> (#[trigger] requests[i] matches EngineRequest::RenderDigit {
                    rect,
                    animation,
                    ..
                } ==> rect.in_extent() && (animation matches Some(state) ==> state.well_formed()))
        }),
{
    let cycle = RenderCycle { phase, ..clock.cycle_for(reading) };
    let duration = clock.settings.animation_duration_ms as int;
    crate::layout::lemma_layout_in_extent(clock.settings);
    if clock.draws_flip_frame(cycle, elapsed_ms) {
        assert(0 <= progress_at(elapsed_ms as int, duration) <= 1000) by (nonlinear_arith)
            requires
                0 <= elapsed_ms < duration,
                progress_at(elapsed_ms as int, duration) == elapsed_ms * 1000 / duration,
        ;
    }
}

} // verus!
