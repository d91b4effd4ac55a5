//! The translator over a whole trace of timed events, and what holds of
//! every such trace.

use vstd::prelude::*;
use crate::motion::{
    abs, emit_in_range, emitted, lemma_emitted, scaled, ACCUM_LIMIT, MOTION_ONE,
};
use crate::controller::{controller_next, ControllerAction, ControllerEvent, TimerState};
use crate::translator::{
    accumulated_x, accumulated_y, elapsed, next, ControlSignal, Effect, GestureEvent,
    GestureTranslator, SinkOp, DRAG_FINGERS,
};

verus! {

/// The translator fed `evs` (each an event and its time) in order: the
/// final translator and the effects, one per event.
pub open spec fn run(t: GestureTranslator, evs: Seq<(GestureEvent, u64)>) -> (GestureTranslator, Seq<Effect>)
    decreases evs.len(),
{
    if evs.len() == 0 {
        (t, Seq::empty())
    } else {
        let before = run(t, evs.drop_last());
        let step = next(before.0, evs.last().0, evs.last().1);
        (step.0, before.1.push(step.1))
    }
}

/// How many times `x` occurs in `effs`.
pub open spec fn count(effs: Seq<Effect>, x: Effect) -> nat
    decreases effs.len(),
{
    if effs.len() == 0 {
        0
    } else {
        count(effs.drop_last(), x) + if effs.last() == x { 1nat } else { 0nat }
    }
}

pub open spec fn down_count(t: GestureTranslator) -> nat {
    if t.state.mouse_down { 1 } else { 0 }
}

pub open spec fn same_settings(a: GestureTranslator, b: GestureTranslator) -> bool {
    a.acceleration == b.acceleration && a.drag_end_delay == b.drag_end_delay
        && a.response_time == b.response_time
}

pub proof fn lemma_run_shape(t: GestureTranslator, evs: Seq<(GestureEvent, u64)>)
    ensures
        run(t, evs).1.len() == evs.len(),
        same_settings(run(t, evs).0, t),
    decreases evs.len(),
{
    if evs.len() > 0 {
        lemma_run_shape(t, evs.drop_last());
    }
}

/// Presses balance releases, counting the button held at the start and at
/// the end of a trace, and counting as a release each `CancelTimer` that
/// the delay controller answers with one. That is every release there is
/// unless the trailing timer runs out: with no delay, all of them.
pub proof fn law_balanced_press_release(t: GestureTranslator, evs: Seq<(GestureEvent, u64)>)
    ensures
        count(run(t, evs).1, Effect::Sink(SinkOp::Press)) + down_count(t)
            == count(run(t, evs).1, Effect::Sink(SinkOp::Release))
               + count(run(t, evs).1, Effect::Signal(ControlSignal::CancelTimer))
               + down_count(run(t, evs).0),
        t.drag_end_delay == 0 ==> count(run(t, evs).1, Effect::Signal(ControlSignal::CancelTimer)) == 0,
    decreases evs.len(),
{
    if evs.len() > 0 {
        law_balanced_press_release(t, evs.drop_last());
        lemma_run_shape(t, evs.drop_last());
        assert(run(t, evs).1.drop_last() =~= run(t, evs.drop_last()).1);
    }
}

/// The delay controller, while it runs, answers `CancelTimer` with exactly
/// one release, and the other signals of the translator with none.
pub proof fn law_controller_releases(s: TimerState)
    requires
        s != TimerState::Stopped,
    ensures
        controller_next(s, ControllerEvent::Received(ControlSignal::CancelTimer)).1 == ControllerAction::Release,
        controller_next(s, ControllerEvent::Received(ControlSignal::RestartTimer)).1 != ControllerAction::Release,
        controller_next(s, ControllerEvent::Received(ControlSignal::CancelMouseUp)).1 != ControllerAction::Release,
        controller_next(s, ControllerEvent::Received(ControlSignal::RestartTimer)).0 != TimerState::Stopped,
        controller_next(s, ControllerEvent::Received(ControlSignal::CancelTimer)).0 != TimerState::Stopped,
        controller_next(s, ControllerEvent::Received(ControlSignal::CancelMouseUp)).0 != TimerState::Stopped,
{
}

/// No motion is emitted unless the button is held, before and after.
pub proof fn law_no_motion_without_press(t: GestureTranslator, e: GestureEvent, now: u64)
    ensures
        next(t, e, now).1 matches Effect::Sink(SinkOp::Move { .. }) ==> t.state.mouse_down
            && next(t, e, now).0.state.mouse_down,
{
}

/// An emitted motion is the accumulator truncated toward zero: never larger
/// than it, never of the opposite sign.
pub proof fn law_sign_preserving_truncation(t: GestureTranslator, e: GestureEvent, now: u64)
    ensures
        next(t, e, now).1 matches Effect::Sink(SinkOp::Move { dx: ix, dy: iy }) ==> (e matches GestureEvent::Update { dx, dy, .. }
            && abs(ix as int * MOTION_ONE) <= abs(accumulated_x(t, dx))
            && (ix == 0 || (ix > 0) == (accumulated_x(t, dx) > 0))
            && abs(iy as int * MOTION_ONE) <= abs(accumulated_y(t, dy))
            && (iy == 0 || (iy > 0) == (accumulated_y(t, dy) > 0))),
{
    if let GestureEvent::Update { dx, dy, .. } = e {
        lemma_emitted(accumulated_x(t, dx));
        lemma_emitted(accumulated_y(t, dy));
    }
}

pub open spec fn is_drag_update(e: GestureEvent) -> bool {
    e matches GestureEvent::Update { fingers, .. } && fingers == DRAG_FINGERS
}

pub open spec fn is_move(e: Effect) -> bool {
    e matches Effect::Sink(SinkOp::Move { .. })
}

/// Every event of `evs` is a motion update of the dragging gesture.
pub open spec fn all_drag_updates(evs: Seq<(GestureEvent, u64)>) -> bool {
    forall|i: int| 0 <= i < evs.len() ==> is_drag_update((#[trigger] evs[i]).0)
}

/// The update `e` neither saturates `t`'s accumulators nor the emitted motion.
pub open spec fn step_unsaturated(t: GestureTranslator, e: GestureEvent) -> bool {
    match e {
        GestureEvent::Update { dx, dy, .. } => {
            abs(t.state.accum_x + scaled(dx, t.acceleration)) <= ACCUM_LIMIT
                && abs(t.state.accum_y + scaled(dy, t.acceleration)) <= ACCUM_LIMIT
                && emit_in_range(accumulated_x(t, dx)) && emit_in_range(accumulated_y(t, dy))
        },
        _ => true,
    }
}

/// No step of the trace saturates.
pub open spec fn unsaturated(t: GestureTranslator, evs: Seq<(GestureEvent, u64)>) -> bool
    decreases evs.len(),
{
    evs.len() == 0 || (unsaturated(t, evs.drop_last()) && step_unsaturated(
        run(t, evs.drop_last()).0,
        evs.last().0,
    ))
}

/// Sum of the scaled horizontal and vertical deltas of the updates in `evs`.
pub open spec fn sum_scaled(evs: Seq<(GestureEvent, u64)>, acceleration: u32) -> (int, int)
    decreases evs.len(),
{
    if evs.len() == 0 {
        (0, 0)
    } else {
        let s = sum_scaled(evs.drop_last(), acceleration);
        match evs.last().0 {
            GestureEvent::Update { dx, dy, .. } => (s.0 + scaled(dx, acceleration), s.1 + scaled(dy, acceleration)),
            _ => s,
        }
    }
}

/// Sum of the emitted motions in `effs`, in whole units.
pub open spec fn sum_moves(effs: Seq<Effect>) -> (int, int)
    decreases effs.len(),
{
    if effs.len() == 0 {
        (0, 0)
    } else {
        let s = sum_moves(effs.drop_last());
        match effs.last() {
            Effect::Sink(SinkOp::Move { dx, dy }) => (s.0 + dx, s.1 + dy),
            _ => s,
        }
    }
}

/// Within a gesture, motion is conserved: what was emitted plus what stays
/// in the accumulator is what was accumulated, and right after an emission
/// less than one whole unit stays behind. Since a gesture starts with empty
/// accumulators, the emitted sum is then within one unit of the scaled sum.
pub proof fn law_accumulator_conservation(t: GestureTranslator, evs: Seq<(GestureEvent, u64)>)
    requires
        t.state.mouse_down,
        all_drag_updates(evs),
        unsaturated(t, evs),
    ensures
        run(t, evs).0.state.mouse_down,
        sum_moves(run(t, evs).1).0 * MOTION_ONE + run(t, evs).0.state.accum_x
            == t.state.accum_x + sum_scaled(evs, t.acceleration).0,
        sum_moves(run(t, evs).1).1 * MOTION_ONE + run(t, evs).0.state.accum_y
            == t.state.accum_y + sum_scaled(evs, t.acceleration).1,
        evs.len() > 0 && is_move(run(t, evs).1.last()) ==> abs(
            run(t, evs).0.state.accum_x as int,
        ) < MOTION_ONE && abs(run(t, evs).0.state.accum_y as int) < MOTION_ONE,
    decreases evs.len(),
{
    if evs.len() > 0 {
        let init = evs.drop_last();
        assert forall|i: int| 0 <= i < init.len() implies is_drag_update((#[trigger] init[i]).0) by {
            assert(init[i] == evs[i]);
        }
        law_accumulator_conservation(t, init);
        lemma_run_shape(t, init);
        assert(run(t, evs).1.drop_last() =~= run(t, init).1);
        let s = run(t, init).0;
        assert(evs[evs.len() - 1] == evs.last());
        if let GestureEvent::Update { dx, dy, .. } = evs.last().0 {
            let ax = accumulated_x(s, dx);
            let ay = accumulated_y(s, dy);
            lemma_emitted(ax);
            lemma_emitted(ay);
            assert(ax == s.state.accum_x + scaled(dx, t.acceleration));
            assert(ay == s.state.accum_y + scaled(dy, t.acceleration));
            assert(abs(ax - emitted(ax) * MOTION_ONE) <= ACCUM_LIMIT);
            assert(abs(ay - emitted(ay) * MOTION_ONE) <= ACCUM_LIMIT);
        }
    }
}

/// Over a gesture whose last update was emitted, the emitted motion is
/// within one whole unit of the scaled deltas: the accumulators start empty
/// when the gesture begins, so the conservation above leaves only the
/// residue, which is under one unit.
pub proof fn law_gesture_motion_within_one_unit(t: GestureTranslator, evs: Seq<(GestureEvent, u64)>)
    requires
        t.state.mouse_down,
        t.state.accum_x == 0,
        t.state.accum_y == 0,
        all_drag_updates(evs),
        unsaturated(t, evs),
        evs.len() > 0,
        is_move(run(t, evs).1.last()),
    ensures
        abs(sum_moves(run(t, evs).1).0 * MOTION_ONE - sum_scaled(evs, t.acceleration).0) < MOTION_ONE,
        abs(sum_moves(run(t, evs).1).1 * MOTION_ONE - sum_scaled(evs, t.acceleration).1) < MOTION_ONE,
{
    law_accumulator_conservation(t, evs);
}

/// Event times in `evs` never go back.
pub open spec fn times_nondecreasing(evs: Seq<(GestureEvent, u64)>) -> bool {
    forall|i: int, j: int| 0 <= i < j < evs.len() ==> evs[i].1 <= evs[j].1
}

proof fn lemma_last_emit_after_move(t: GestureTranslator, evs: Seq<(GestureEvent, u64)>, k: int)
    requires
        times_nondecreasing(evs),
        0 <= k < evs.len(),
        is_move(run(t, evs).1[k]),
    ensures
        run(t, evs).0.state.last_emit >= evs[k].1,
    decreases evs.len(),
{
    let init = evs.drop_last();
    lemma_run_shape(t, init);
    if k < evs.len() - 1 {
        assert(run(t, evs).1[k] == run(t, init).1[k]);
        assert(init[k] == evs[k]);
        lemma_last_emit_after_move(t, init, k);
        assert(evs[k].1 <= evs[evs.len() - 1].1);
    }
}

/// Two motion emissions are at least the response time apart.
pub proof fn law_rate_limiting(t: GestureTranslator, evs: Seq<(GestureEvent, u64)>, i: int, j: int)
    requires
        times_nondecreasing(evs),
        0 <= i < j < evs.len(),
        is_move(run(t, evs).1[i]),
        is_move(run(t, evs).1[j]),
    ensures
        evs[j].1 >= evs[i].1 + t.response_time,
    decreases evs.len(),
{
    let init = evs.drop_last();
    lemma_run_shape(t, init);
    assert(init.len() == evs.len() - 1);
    assert(run(t, evs).1[i] == run(t, init).1[i]);
    assert(init[i] == evs[i]);
    if j < evs.len() - 1 {
        assert(run(t, evs).1[j] == run(t, init).1[j]);
        assert(init[j] == evs[j]);
        law_rate_limiting(t, init, i, j);
    } else {
        lemma_last_emit_after_move(t, init, i);
        let s = run(t, init).0;
        assert(evs[j] == evs.last());
        assert(elapsed(evs[j].1, s.state.last_emit) >= s.response_time);
    }
}

} // verus!
