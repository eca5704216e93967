//! What holds of the camera over whole runs of events and frames.
//!
//! A run is a sequence of [`Step`]s applied to a [`FrameInput`] in order. The
//! lemmas below speak of the same state transitions as the contracts of the
//! camera's methods, so each of them holds of the compiled code.

use vstd::prelude::*;
use crate::fixed::{lemma_quotient_odd, product, quotient, saturate, ONE};
use crate::render::{
    axis, drag_angle, steers, Event, FrameInput, FrameUniforms, MouseButton, FLOOR, HALF_PI,
    SENSITIVITY,
};
use crate::rotation::{lemma_rotate_zero, rotated, rotation, Trig};

verus! {

/// One thing that happens to the camera: an event arrives, or a frame is derived.
pub enum Step {
    Input(Event),
    Frame { now: u64, trig: Trig },
}

impl Step {
    /// The event is valid, or the frame's sines and cosines are.
    pub open spec fn wf(self) -> bool {
        match self {
            Step::Input(event) => event.wf(),
            Step::Frame { now, trig } => trig.wf(),
        }
    }

    /// Whether the step presses a button that steers.
    pub open spec fn begins_drag(self) -> bool {
        self matches Step::Input(Event::MouseButton { button, pressed }) && steers(button)
            && pressed
    }

    /// Whether the step presses or releases a button that steers.
    pub open spec fn touches_drag(self) -> bool {
        self matches Step::Input(Event::MouseButton { button, pressed }) && steers(button)
    }
}

/// The state after one step.
pub open spec fn step(s: FrameInput, step: Step) -> FrameInput {
    match step {
        Step::Input(event) => s.after_event(event),
        Step::Frame { now, trig } => s.updated(now, trig),
    }
}

/// The state after all of `steps`, first to last.
pub open spec fn run(s: FrameInput, steps: Seq<Step>) -> FrameInput
    decreases steps.len(),
{
    if steps.len() == 0 {
        s
    } else {
        step(run(s, steps.drop_last()), steps.last())
    }
}

/// Whether a drag that began at `origin` is under way in `s`: the button is held, the
/// first frame of the drag has passed, and the anchors are `origin`'s orientation and cursor.
pub open spec fn dragging_from(s: FrameInput, origin: FrameInput) -> bool {
    &&& s.drag_active
    &&& !s.drag_just_started
    &&& s.drag_anchor_yaw == origin.yaw
    &&& s.drag_anchor_pitch == origin.pitch
    &&& s.drag_anchor_cursor == origin.cursor
}

/// Movement never turns the camera: while no drag is under way and none begins, no run
/// of key events, frames and other events changes yaw or pitch.
pub proof fn lemma_movement_keeps_orientation(s: FrameInput, steps: Seq<Step>)
    requires
        !s.drag_active,
        forall|i: int| 0 <= i < steps.len() ==> !(#[trigger] steps[i]).begins_drag(),
    ensures
        run(s, steps).yaw == s.yaw,
        run(s, steps).pitch == s.pitch,
        !run(s, steps).drag_active,
    decreases steps.len(),
{
    if steps.len() > 0 {
        let before = steps.drop_last();
        assert forall|i: int| 0 <= i < before.len() implies !(#[trigger] before[i]).begins_drag() by {
            assert(before[i] == steps[i]);
        }
        lemma_movement_keeps_orientation(s, before);
        assert(!steps[steps.len() - 1].begins_drag());
    }
}

/// A frame of a drag leaves pitch within a quarter turn either way, wherever the cursor
/// is and whatever the pitch was before.
pub proof fn lemma_drag_bounds_pitch(s: FrameInput)
    requires
        s.drag_active,
    ensures
        -HALF_PI <= s.steered().pitch <= HALF_PI,
{
}

/// A frame leaves the camera at or above the floor, whatever moved it and wherever it was.
pub proof fn lemma_frame_keeps_floor(s: FrameInput, now: u64, trig: Trig)
    ensures
        s.updated(now, trig).position[1] >= FLOOR,
        s.calculated(now, trig).position[1] >= FLOOR,
{
}

/// Every valid step keeps a valid state valid.
pub proof fn lemma_step_keeps_wf(s: FrameInput, next: Step)
    requires
        s.wf(),
        next.wf(),
    ensures
        step(s, next).wf(),
{
}

/// After any run of valid steps from a valid state, pitch is within a quarter turn either
/// way, the camera is at or above the floor, and the viewport is not empty.
pub proof fn lemma_run_keeps_wf(s: FrameInput, steps: Seq<Step>)
    requires
        s.wf(),
        forall|i: int| 0 <= i < steps.len() ==> (#[trigger] steps[i]).wf(),
    ensures
        run(s, steps).wf(),
        -HALF_PI <= run(s, steps).pitch <= HALF_PI,
        run(s, steps).position[1] >= FLOOR,
    decreases steps.len(),
{
    if steps.len() > 0 {
        let before = steps.drop_last();
        assert forall|i: int| 0 <= i < before.len() implies (#[trigger] before[i]).wf() by {
            assert(before[i] == steps[i]);
        }
        lemma_run_keeps_wf(s, before);
        assert(steps[steps.len() - 1].wf());
        lemma_step_keeps_wf(run(s, before), steps.last());
    }
}

/// Turning the drag into yaw and pitch a second time changes nothing.
pub proof fn lemma_steer_twice(s: FrameInput)
    ensures
        s.steered().steered() == s.steered(),
{
}

/// A second frame at the same time with no event in between leaves the state as the
/// first frame left it and yields the same uniforms, but for a frame delta of zero.
pub proof fn lemma_update_twice(s: FrameInput, now: u64, trig: Trig)
    ensures
        s.updated(now, trig).updated(now, trig) == s.updated(now, trig),
        s.updated(now, trig).uniforms(now, trig) == (FrameUniforms {
            frame_delta: 0,
            ..s.uniforms(now, trig)
        }),
{
    let once = s.updated(now, trig);
    lemma_steer_twice(s);
    assert(once.steered() == once);
    lemma_no_time_no_movement(once, trig);
    assert(once.calculated(now, trig).position =~= once.position);
}

/// The orientation that steering gives is the one that the frame commits, and a frame
/// after steering is the same frame: the host may steer first, to learn the angles whose
/// sines and cosines the frame needs.
pub proof fn lemma_steer_then_update(s: FrameInput, now: u64, trig: Trig)
    ensures
        s.updated(now, trig).yaw == s.steered().yaw,
        s.updated(now, trig).pitch == s.steered().pitch,
        s.steered().updated(now, trig) == s.updated(now, trig),
{
    lemma_steer_twice(s);
}

/// Over no time the camera moves nowhere, whatever keys are held: the displacement is
/// zero in every axis, before and after the rotation.
pub proof fn lemma_no_time_no_movement(s: FrameInput, trig: Trig)
    ensures
        s.movement(0) == [0i64, 0i64, 0i64],
        rotated(rotation(trig), s.movement(0)) == [0i64, 0i64, 0i64],
{
    let zero: [i64; 3] = [0i64, 0i64, 0i64];
    let travel = product(s.speed() as int, 0);
    assert(s.speed() * 0 == 0) by (nonlinear_arith);
    assert(0int / (ONE as int) == 0);
    assert(travel == 0);
    let x = axis(s.movement_keys.right, s.movement_keys.left);
    let z = axis(s.movement_keys.forward, s.movement_keys.backward);
    assert(x * travel == 0 && z * travel == 0) by (nonlinear_arith)
        requires
            travel == 0,
    ;
    assert(s.movement(0) =~= zero);
    lemma_rotate_zero(rotation(trig));
}

/// Only walking forward or backward with a raised or lowered gaze changes the height:
/// stepping sideways never does, and with a level gaze no key does.
pub proof fn lemma_height_follows_pitch(s: FrameInput, delta: u64, trig: Trig)
    ensures
        ({
            let local = s.movement(delta);
            let world = rotated(rotation(trig), local);
            &&& world[1] == saturate(quotient(saturate(-trig.sin_pitch) * local[2], ONE as int))
            &&& local[2] == 0 ==> world[1] == 0
            &&& trig.sin_pitch == 0 ==> world[1] == 0
        }),
{
    let local = s.movement(delta);
    let row = rotation(trig)[1];
    assert(row[0] * local[0] == 0) by (nonlinear_arith)
        requires
            row[0] == 0,
    ;
    assert(row[1] * local[1] == 0) by (nonlinear_arith)
        requires
            local[1] == 0,
    ;
    assert(row[2] * local[2] == 0 <== row[2] == 0 || local[2] == 0) by (nonlinear_arith);
    assert(0int / (ONE as int) == 0);
}

/// Opposite keys held together cancel along their axis.
pub proof fn lemma_opposite_keys_cancel(s: FrameInput, delta: u64)
    ensures
        s.movement_keys.left && s.movement_keys.right ==> s.movement(delta)[0] == 0,
        s.movement_keys.forward && s.movement_keys.backward ==> s.movement(delta)[2] == 0,
        s.movement(delta)[1] == 0,
{
    let travel = product(s.speed() as int, delta as int);
    assert(0 * travel == 0) by (nonlinear_arith);
}

/// Dragging as far to one side of the anchor as to the other turns the camera by the
/// same angle, the other way round.
pub proof fn lemma_opposite_drags_turn_alike(anchor_angle: i64, distance: i64, extent: u32)
    requires
        extent >= 1,
        distance > i64::MIN,
    ensures
        drag_angle(anchor_angle, 0, distance, extent) - anchor_angle == anchor_angle - drag_angle(
            anchor_angle,
            0,
            (-distance) as i64,
            extent,
        ),
{
    lemma_quotient_odd(distance * SENSITIVITY, extent as int);
    assert((0 - distance) * SENSITIVITY == -(distance * SENSITIVITY));
    assert((0 - (-distance)) * SENSITIVITY == distance * SENSITIVITY);
}

/// While a drag is under way, yaw and pitch are set from the anchors and the cursor
/// alone: whenever the cursor is back where the drag began, so are yaw and pitch.
///
/// A drag begins in the valid state `origin` with a press of `button`; its first frame
/// takes the anchors. Any run of valid steps follows in which no steering button is
/// pressed or released. When the cursor has then returned to where it was in `origin`,
/// the next frame sets yaw and pitch to what they were in `origin`.
pub proof fn lemma_drag_returns_to_anchor(
    origin: FrameInput,
    button: MouseButton,
    first: (u64, Trig),
    steps: Seq<Step>,
    last: (u64, Trig),
)
    requires
        origin.wf(),
        steers(button),
        first.1.wf(),
        last.1.wf(),
        forall|i: int| 0 <= i < steps.len() ==> (#[trigger] steps[i]).wf(),
        forall|i: int| 0 <= i < steps.len() ==> !(#[trigger] steps[i]).touches_drag(),
    ensures
        ({
            let begun = origin.after_mouse_button(button, true).updated(first.0, first.1);
            let back = run(begun, steps).after_cursor_move(origin.cursor.0, origin.cursor.1);
            &&& begun.yaw == origin.yaw
            &&& begun.pitch == origin.pitch
            &&& back.updated(last.0, last.1).yaw == origin.yaw
            &&& back.updated(last.0, last.1).pitch == origin.pitch
        }),
{
    let begun = origin.after_mouse_button(button, true).updated(first.0, first.1);
    lemma_step_keeps_wf(
        origin.after_mouse_button(button, true),
        Step::Frame { now: first.0, trig: first.1 },
    );
    assert(dragging_from(begun, origin));
    lemma_drag_goes_on(begun, origin, steps);
}

/// A drag that is under way stays under way, with the same anchors, through any run of
/// valid steps that leaves the steering buttons alone.
pub proof fn lemma_drag_goes_on(s: FrameInput, origin: FrameInput, steps: Seq<Step>)
    requires
        s.wf(),
        dragging_from(s, origin),
        forall|i: int| 0 <= i < steps.len() ==> (#[trigger] steps[i]).wf(),
        forall|i: int| 0 <= i < steps.len() ==> !(#[trigger] steps[i]).touches_drag(),
    ensures
        run(s, steps).wf(),
        dragging_from(run(s, steps), origin),
    decreases steps.len(),
{
    if steps.len() > 0 {
        let before = steps.drop_last();
        assert forall|i: int| 0 <= i < before.len() implies (#[trigger] before[i]).wf() && !before[i].touches_drag() by {
            assert(before[i] == steps[i]);
        }
        lemma_drag_goes_on(s, origin, before);
        assert(steps[steps.len() - 1].wf());
        assert(!steps[steps.len() - 1].touches_drag());
    }
}

} // verus!
