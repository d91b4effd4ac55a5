use linux_3_finger_drag::config::Configuration;
use linux_3_finger_drag::controller::{ControllerAction, ControllerEvent, DelayController, TimerState};
use linux_3_finger_drag::sink::button_after;
use linux_3_finger_drag::translator::{
    ControlSignal, Effect, GestureEvent, GestureTranslator, SinkOp, TranslatorState,
};

fn translator(acceleration: u32, delay: u64, response: u64) -> GestureTranslator {
    let mut cfg = Configuration::default();
    cfg.acceleration = acceleration;
    cfg.drag_end_delay = delay;
    cfg.response_time = response;
    GestureTranslator::new(&cfg)
}

fn begin(f: u32) -> GestureEvent {
    GestureEvent::Begin { fingers: f }
}

fn update(f: u32, dx: i32, dy: i32) -> GestureEvent {
    GestureEvent::Update { dx, dy, fingers: f }
}

fn end(f: u32, cancelled: bool) -> GestureEvent {
    GestureEvent::End { fingers: f, cancelled }
}

/// Feeds the translator and a delay controller as the two tasks would, and
/// returns what the sink saw. A `None` time means the controller's timer ran out.
fn simulate(t: &mut GestureTranslator, events: &[(Option<GestureEvent>, u64)]) -> Vec<SinkOp> {
    let mut ctl = DelayController::new(t.drag_end_delay);
    let mut sink = Vec::new();
    for (ev, now) in events {
        let effect = match ev {
            Some(e) => t.translate_gesture(*e, *now),
            None => Effect::Nothing,
        };
        let cev = match (ev, effect) {
            (_, Effect::Signal(s)) => Some(ControllerEvent::Received(s)),
            (None, _) if ctl.is_armed() => Some(ControllerEvent::TimerElapsed),
            _ => None,
        };
        if let Effect::Sink(op) = effect {
            sink.push(op);
        }
        if let Some(c) = cev {
            if ctl.handle(c) == ControllerAction::Release {
                sink.push(SinkOp::Release);
            }
        }
    }
    sink
}

#[test]
fn single_short_drag_zero_delay() {
    let mut t = translator(1000, 0, 0);
    let ops = simulate(
        &mut t,
        &[
            (Some(begin(3)), 0),
            (Some(update(3, 10_000, 0)), 1),
            (Some(update(3, 5_000, -3_200)), 2),
            (Some(end(3, false)), 3),
        ],
    );
    assert_eq!(
        ops,
        vec![
            SinkOp::Press,
            SinkOp::Move { dx: 10, dy: 0 },
            SinkOp::Move { dx: 5, dy: -3 },
            SinkOp::Release
        ]
    );
    assert_eq!(t.state.accum_x, 0);
    assert_eq!(t.state.accum_y, -200_000);
    assert!(!t.state.mouse_down);
}

#[test]
fn gesture_chaining_within_delay() {
    let mut t = translator(1000, 100, 0);
    let ops = simulate(
        &mut t,
        &[
            (Some(begin(3)), 0),
            (Some(update(3, 2_000, 2_000)), 1),
            (Some(end(3, false)), 2),
            (Some(begin(3)), 32),
            (Some(update(3, 3_000, 3_000)), 33),
            (Some(end(3, false)), 34),
            (None, 134),
        ],
    );
    assert_eq!(
        ops,
        vec![
            SinkOp::Press,
            SinkOp::Move { dx: 2, dy: 2 },
            SinkOp::Move { dx: 3, dy: 3 },
            SinkOp::Release
        ]
    );
}

#[test]
fn cancelled_gesture_releases_promptly() {
    let mut t = translator(1000, 100, 5);
    assert_eq!(t.translate_gesture(begin(3), 0), Effect::Sink(SinkOp::Press));
    assert_eq!(
        t.translate_gesture(update(3, 1_000, 1_000), 10),
        Effect::Sink(SinkOp::Move { dx: 1, dy: 1 })
    );
    assert_eq!(t.translate_gesture(end(3, true), 11), Effect::Signal(ControlSignal::CancelTimer));
    assert!(!t.state.mouse_down);
    let mut ctl = DelayController::new(100);
    assert_eq!(
        ctl.handle(ControllerEvent::Received(ControlSignal::CancelTimer)),
        ControllerAction::Release
    );
    assert_eq!(ctl.timer, TimerState::Idle);
}

#[test]
fn sub_unit_accumulation() {
    let mut t = translator(300, 0, 0);
    assert_eq!(t.translate_gesture(begin(3), 0), Effect::Sink(SinkOp::Press));
    let mut xs = Vec::new();
    for k in 0..10u64 {
        match t.translate_gesture(update(3, 1_000, 0), k + 1) {
            Effect::Sink(SinkOp::Move { dx, dy }) => {
                assert_eq!(dy, 0);
                xs.push(dx);
            }
            other => panic!("unexpected {:?}", other),
        }
    }
    assert_eq!(xs.iter().sum::<i32>(), 3);
    assert_eq!(xs.iter().filter(|x| **x != 0).count(), 3);
    assert_eq!(xs, vec![0, 0, 0, 1, 0, 0, 1, 0, 0, 1]);
    assert_eq!(t.translate_gesture(end(3, false), 20), Effect::Sink(SinkOp::Release));
}

#[test]
fn non_three_finger_ignored() {
    let mut t = translator(1000, 0, 0);
    let ops = simulate(
        &mut t,
        &[(Some(begin(2)), 0), (Some(update(2, 50_000, 50_000)), 1), (Some(end(2, false)), 2)],
    );
    assert!(ops.is_empty());
    assert_eq!(t, translator(1000, 0, 0));
}

#[test]
fn rate_limiting_holds_back_motion() {
    let mut t = translator(1000, 0, 5);
    assert_eq!(t.translate_gesture(begin(3), 1_000), Effect::Sink(SinkOp::Press));
    let mut moves = 0;
    for k in 0..100u64 {
        if let Effect::Sink(SinkOp::Move { .. }) = t.translate_gesture(update(3, 100, -100), 1_000 + k * 3 / 100) {
            moves += 1;
        }
    }
    assert!(moves <= 1);
    assert_eq!(moves, 0);
    assert_eq!(t.state.accum_x, 10_000_000);
    assert_eq!(t.state.accum_y, -10_000_000);
    assert_eq!(
        t.translate_gesture(update(3, 0, 0), 1_005),
        Effect::Sink(SinkOp::Move { dx: 10, dy: -10 })
    );
    assert_eq!(t.state.last_emit, 1_005);
}

#[test]
fn begin_while_held_suppresses_release() {
    let mut t = translator(1000, 100, 0);
    t.translate_gesture(begin(3), 0);
    t.translate_gesture(update(3, 1_500, 0), 1);
    assert_eq!(t.translate_gesture(end(3, false), 2), Effect::Signal(ControlSignal::RestartTimer));
    assert!(t.state.mouse_down);
    assert_eq!(t.translate_gesture(begin(3), 3), Effect::Signal(ControlSignal::CancelMouseUp));
    assert_eq!(
        t.state,
        TranslatorState { mouse_down: true, last_emit: 1, accum_x: 0, accum_y: 0 }
    );
}

#[test]
fn update_without_press_ignored() {
    let mut t = translator(1000, 0, 0);
    assert_eq!(t.translate_gesture(update(3, 9_000, 9_000), 5), Effect::Nothing);
    assert_eq!(t.translate_gesture(end(3, true), 6), Effect::Nothing);
    assert_eq!(t.translate_gesture(GestureEvent::Other, 7), Effect::Nothing);
    assert_eq!(t, translator(1000, 0, 0));
}

#[test]
fn cancelled_end_without_delay_releases_directly() {
    let mut t = translator(1000, 0, 0);
    t.translate_gesture(begin(3), 0);
    assert_eq!(t.translate_gesture(end(3, true), 1), Effect::Sink(SinkOp::Release));
    assert!(!t.state.mouse_down);
}

#[test]
fn negative_motion_truncates_toward_zero() {
    let mut t = translator(1000, 0, 0);
    t.translate_gesture(begin(3), 0);
    assert_eq!(
        t.translate_gesture(update(3, -2_700, 2_700), 1),
        Effect::Sink(SinkOp::Move { dx: -2, dy: 2 })
    );
    assert_eq!(t.state.accum_x, -700_000);
    assert_eq!(t.state.accum_y, 700_000);
}

#[test]
fn extreme_acceleration_saturates() {
    let mut t = translator(u32::MAX, 0, 0);
    t.translate_gesture(begin(3), 0);
    assert_eq!(
        t.translate_gesture(update(3, i32::MAX, i32::MIN), 1),
        Effect::Sink(SinkOp::Move { dx: i32::MAX, dy: i32::MIN })
    );
}

#[test]
fn balanced_with_zero_delay() {
    let mut t = translator(1000, 0, 0);
    let ops = simulate(
        &mut t,
        &[
            (Some(begin(3)), 0),
            (Some(end(3, false)), 1),
            (Some(begin(3)), 2),
            (Some(update(3, 4_000, 0)), 3),
            (Some(end(3, true)), 4),
            (Some(begin(3)), 5),
        ],
    );
    let presses = ops.iter().filter(|o| **o == SinkOp::Press).count();
    let releases = ops.iter().filter(|o| **o == SinkOp::Release).count();
    assert_eq!(presses, releases + 1);
    assert!(t.state.mouse_down);
    let mut held = false;
    for op in &ops {
        if let SinkOp::Move { .. } = op {
            assert!(held);
        }
        held = button_after(held, *op);
    }
}

#[test]
fn conservation_within_one_unit() {
    let mut t = translator(1000, 0, 0);
    t.translate_gesture(begin(3), 0);
    let deltas = [1_300, -400, 2_900, 700, -5_100, 250];
    let mut emitted: i64 = 0;
    let mut total: i64 = 0;
    for (k, d) in deltas.iter().enumerate() {
        total += *d as i64 * 1000;
        if let Effect::Sink(SinkOp::Move { dx, .. }) = t.translate_gesture(update(3, *d, 0), k as u64 + 1) {
            emitted += dx as i64;
        }
    }
    assert_eq!(emitted * 1_000_000 + t.state.accum_x, total);
    assert!((emitted * 1_000_000 - total).abs() < 1_000_000);
}

#[test]
fn rate_limited_moves_are_spaced() {
    let mut t = translator(1000, 0, 5);
    t.translate_gesture(begin(3), 0);
    let mut times = Vec::new();
    for now in 0..40u64 {
        if let Effect::Sink(SinkOp::Move { .. }) = t.translate_gesture(update(3, 1_000, 0), now) {
            times.push(now);
        }
    }
    assert_eq!(times, vec![5, 10, 15, 20, 25, 30, 35]);
}

#[test]
fn balanced_with_delay_when_timer_never_runs_out() {
    let mut t = translator(1000, 100, 0);
    let ops = simulate(
        &mut t,
        &[
            (Some(begin(3)), 0),
            (Some(end(3, false)), 10),
            (Some(begin(3)), 20),
            (Some(update(3, 1_000, 0)), 21),
            (Some(end(3, true)), 22),
            (Some(begin(3)), 30),
            (Some(end(3, true)), 31),
        ],
    );
    let presses = ops.iter().filter(|o| **o == SinkOp::Press).count();
    let releases = ops.iter().filter(|o| **o == SinkOp::Release).count();
    assert_eq!(presses, 2);
    assert_eq!(presses, releases);
    assert!(!t.state.mouse_down);
}
