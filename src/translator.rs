//! The gesture translator: one pad event in, at most one effect out.
//!
//! Press and motion go straight to the pointer sink; the end of a gesture
//! either releases at once or hands the release to the delay controller.

use vstd::prelude::*;
use crate::config::Configuration;
use crate::motion::{
    accumulate, clamp_accum, emitted, scaled, split_accumulator, MOTION_ONE,
};

verus! {

/// Number of fingers of the gesture that drags.
pub const DRAG_FINGERS: u32 = 3;

/// A touchpad gesture event. Deltas are in thousandths of a unit.
#[derive(Clone, Copy, Debug, PartialEq, Eq, Structural)]
pub enum GestureEvent {
    Begin { fingers: u32 },
    Update { dx: i32, dy: i32, fingers: u32 },
    End { fingers: u32, cancelled: bool },
    Other,
}

/// What the translator tells the delay controller.
#[derive(Clone, Copy, Debug, PartialEq, Eq, Structural)]
pub enum ControlSignal {
    /// Arm, or re-arm, the release timer.
    RestartTimer,
    /// Release now, without waiting.
    CancelTimer,
    /// Abandon any pending release without emitting it.
    CancelMouseUp,
    /// Shut the controller down.
    TerminateThread,
}

/// An operation on the virtual pointer.
#[derive(Clone, Copy, Debug, PartialEq, Eq, Structural)]
pub enum SinkOp {
    Press,
    Release,
    Move { dx: i32, dy: i32 },
}

/// The one thing a single event makes the translator do.
#[derive(Clone, Copy, Debug, PartialEq, Eq, Structural)]
pub enum Effect {
    Nothing,
    Sink(SinkOp),
    Signal(ControlSignal),
}

/// Drag bookkeeping. The accumulators hold millionths of a unit.
#[derive(Clone, Copy, Debug, PartialEq, Eq, Structural)]
pub struct TranslatorState {
    pub mouse_down: bool,
    /// Time of the last press or motion emission, in milliseconds.
    pub last_emit: u64,
    pub accum_x: i64,
    pub accum_y: i64,
}

/// The translator: its settings and its state.
#[derive(Clone, Copy, Debug, PartialEq, Eq, Structural)]
pub struct GestureTranslator {
    /// Acceleration, in thousandths.
    pub acceleration: u32,
    /// Trailing-release delay, in milliseconds.
    pub drag_end_delay: u64,
    /// Least time between two motion emissions, in milliseconds.
    pub response_time: u64,
    pub state: TranslatorState,
}

/// Milliseconds from `since` to `now`; none if the clock went back.
pub open spec fn elapsed(now: u64, since: u64) -> int {
    if now >= since { now - since } else { 0 }
}

pub open spec fn with_state(t: GestureTranslator, s: TranslatorState) -> GestureTranslator {
    GestureTranslator {
        acceleration: t.acceleration,
        drag_end_delay: t.drag_end_delay,
        response_time: t.response_time,
        state: s,
    }
}

pub open spec fn with_mouse_down(s: TranslatorState, down: bool) -> TranslatorState {
    TranslatorState { mouse_down: down, last_emit: s.last_emit, accum_x: s.accum_x, accum_y: s.accum_y }
}

/// The accumulators after an update of `(dx, dy)`, before any emission.
pub open spec fn accumulated_x(t: GestureTranslator, dx: i32) -> int {
    clamp_accum(t.state.accum_x + scaled(dx, t.acceleration))
}

pub open spec fn accumulated_y(t: GestureTranslator, dy: i32) -> int {
    clamp_accum(t.state.accum_y + scaled(dy, t.acceleration))
}

/// One step of the translator: the state after `e` arrived at time `now`,
/// and what it makes the translator do.
pub open spec fn next(t: GestureTranslator, e: GestureEvent, now: u64) -> (GestureTranslator, Effect) {
    let s = t.state;
    match e {
        GestureEvent::Begin { fingers } => {
            if fingers != DRAG_FINGERS {
                (t, Effect::Nothing)
            } else if !s.mouse_down {
                (
                    with_state(t, TranslatorState { mouse_down: true, last_emit: now, accum_x: 0, accum_y: 0 }),
                    Effect::Sink(SinkOp::Press),
                )
            } else {
                (
                    with_state(t, TranslatorState { mouse_down: true, last_emit: s.last_emit, accum_x: 0, accum_y: 0 }),
                    Effect::Signal(ControlSignal::CancelMouseUp),
                )
            }
        },
        GestureEvent::Update { dx, dy, fingers } => {
            if fingers != DRAG_FINGERS || !s.mouse_down {
                (t, Effect::Nothing)
            } else {
                let ax = accumulated_x(t, dx);
                let ay = accumulated_y(t, dy);
                if elapsed(now, s.last_emit) < t.response_time {
                    (
                        with_state(t, TranslatorState { mouse_down: true, last_emit: s.last_emit, accum_x: ax as i64, accum_y: ay as i64 }),
                        Effect::Nothing,
                    )
                } else {
                    let ix = emitted(ax);
                    let iy = emitted(ay);
                    (
                        with_state(t, TranslatorState {
                            mouse_down: true,
                            last_emit: now,
                            accum_x: (ax - ix * MOTION_ONE) as i64,
                            accum_y: (ay - iy * MOTION_ONE) as i64,
                        }),
                        Effect::Sink(SinkOp::Move { dx: ix as i32, dy: iy as i32 }),
                    )
                }
            }
        },
        GestureEvent::End { fingers, cancelled } => {
            if fingers != DRAG_FINGERS || !s.mouse_down {
                (t, Effect::Nothing)
            } else if t.drag_end_delay == 0 {
                (with_state(t, with_mouse_down(s, false)), Effect::Sink(SinkOp::Release))
            } else if cancelled {
                (with_state(t, with_mouse_down(s, false)), Effect::Signal(ControlSignal::CancelTimer))
            } else {
                (t, Effect::Signal(ControlSignal::RestartTimer))
            }
        },
        GestureEvent::Other => (t, Effect::Nothing),
    }
}

impl GestureTranslator {
    /// A translator for `cfg`, with the button up and nothing accumulated.
    pub fn new(cfg: &Configuration) -> (r: GestureTranslator)
        ensures
            r.acceleration == cfg.acceleration,
            r.drag_end_delay == cfg.drag_end_delay,
            r.response_time == cfg.response_time,
            r.state == (TranslatorState { mouse_down: false, last_emit: 0, accum_x: 0, accum_y: 0 }),
    {
        GestureTranslator {
            acceleration: cfg.acceleration,
            drag_end_delay: cfg.drag_end_delay,
            response_time: cfg.response_time,
            state: TranslatorState { mouse_down: false, last_emit: 0, accum_x: 0, accum_y: 0 },
        }
    }

    /// Consumes one event that arrived at time `now` (milliseconds) and
    /// returns what the caller must do: emit to the sink, signal the delay
    /// controller, or nothing.
    pub fn translate_gesture(&mut self, event: GestureEvent, now: u64) -> (r: Effect)
        ensures
            (*final(self), r) == next(*old(self), event, now),
            r matches Effect::Sink(SinkOp::Move { .. }) ==> old(self).state.mouse_down && final(self).state.mouse_down,
    {
        match event {
            GestureEvent::Begin { fingers } => {
                if fingers != DRAG_FINGERS {
                    Effect::Nothing
                } else if !self.state.mouse_down {
                    self.state = TranslatorState { mouse_down: true, last_emit: now, accum_x: 0, accum_y: 0 };
                    Effect::Sink(SinkOp::Press)
                } else {
                    self.state.accum_x = 0;
                    self.state.accum_y = 0;
                    Effect::Signal(ControlSignal::CancelMouseUp)
                }
            },
            GestureEvent::Update { dx, dy, fingers } => {
                if fingers != DRAG_FINGERS || !self.state.mouse_down {
                    Effect::Nothing
                } else {
                    let ax = accumulate(self.state.accum_x, dx, self.acceleration);
                    let ay = accumulate(self.state.accum_y, dy, self.acceleration);
                    let since = self.state.last_emit;
                    let waited: u64 = if now >= since { now - since } else { 0 };
                    if waited < self.response_time {
                        self.state.accum_x = ax;
                        self.state.accum_y = ay;
                        Effect::Nothing
                    } else {
                        let (ix, rx) = split_accumulator(ax);
                        let (iy, ry) = split_accumulator(ay);
                        self.state.accum_x = rx;
                        self.state.accum_y = ry;
                        self.state.last_emit = now;
                        Effect::Sink(SinkOp::Move { dx: ix, dy: iy })
                    }
                }
            },
            GestureEvent::End { fingers, cancelled } => {
                if fingers != DRAG_FINGERS || !self.state.mouse_down {
                    Effect::Nothing
                } else if self.drag_end_delay == 0 {
                    self.state.mouse_down = false;
                    Effect::Sink(SinkOp::Release)
                } else if cancelled {
                    self.state.mouse_down = false;
                    Effect::Signal(ControlSignal::CancelTimer)
                } else {
                    Effect::Signal(ControlSignal::RestartTimer)
                }
            },
            GestureEvent::Other => Effect::Nothing,
        }
    }
}

} // verus!
