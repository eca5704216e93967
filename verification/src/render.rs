//! The camera's input state and the values derived from it for every frame.
//!
//! [`FrameInput`] collects the device events that the host forwards: held
//! movement keys, the cursor, the drag button, the scroll wheel, the size of
//! the viewport. Once per frame the host asks for the orientation
//! ([`FrameInput::steer`]), supplies its sines and cosines, and receives the
//! [`FrameUniforms`] ([`FrameInput::update`]).
//!
//! Units: angles in microradians, lengths and speeds in millionths of a world
//! unit (per second), cursor coordinates in millionths of a pixel, scroll
//! deltas in millionths of a line, times in microseconds.

use vstd::prelude::*;
use crate::fixed::{
    clamp, divide, elapsed, elapsed_between, lemma_product_fits, lemma_quotient_between, multiply,
    product, quotient, saturate, saturating, ONE,
};
use crate::rotation::{rotate, rotated, rotation, rotation_matrix, Trig};

verus! {

/// A quarter turn in microradians, rounded toward zero: the steepest pitch either way.
pub const HALF_PI: i64 = 1_570_796;

/// The lowest height the camera can have: a tenth of a world unit.
pub const FLOOR: i64 = 100_000;

/// The speed a new camera moves with: 200 world units per second.
pub const DEFAULT_SPEED: i64 = 200_000_000;

/// What one event of a speed key adds to or takes from the speed: 5 world units per second.
pub const SPEED_STEP: i64 = 5_000_000;

/// What one line of scrolling takes from the speed: half a world unit per second.
pub const SCROLL_SCALE: i64 = 500_000;

/// Radians of turn for a drag across the whole viewport.
pub const SENSITIVITY: i64 = 4;

/// The keys the camera listens to.
#[derive(Clone, Copy, Debug, PartialEq, Eq)]
pub enum Key {
    Forward,
    Backward,
    Left,
    Right,
    Faster,
    Slower,
    Other,
}

/// The buttons of the pointer.
#[derive(Clone, Copy, Debug, PartialEq, Eq)]
pub enum MouseButton {
    Left,
    Middle,
    Right,
    Other,
}

/// One event from the host's window.
#[derive(Clone, Copy, Debug, PartialEq, Eq)]
pub enum Event {
    Key { key: Key, pressed: bool },
    MouseButton { button: MouseButton, pressed: bool },
    CursorMoved { x: i64, y: i64 },
    Resized { width: u32, height: u32 },
    Scroll { delta: i64 },
}

/// Which movement keys are held.
#[derive(Clone, Copy, Debug, PartialEq, Eq)]
pub struct MovementKeys {
    pub forward: bool,
    pub backward: bool,
    pub left: bool,
    pub right: bool,
}

/// Everything the camera remembers between frames.
#[derive(Clone, Copy, Debug, PartialEq, Eq)]
pub struct FrameInput {
    /// Last known pointer position.
    pub cursor: (i64, i64),
    /// Width and height of the framebuffer in pixels.
    pub viewport: (u32, u32),
    pub movement_keys: MovementKeys,
    /// Whether a drag button is held.
    pub drag_active: bool,
    /// Set when a drag begins, cleared by the first frame of the drag.
    pub drag_just_started: bool,
    pub yaw: i64,
    pub pitch: i64,
    /// Orientation and cursor at the first frame of the current drag.
    pub drag_anchor_yaw: i64,
    pub drag_anchor_pitch: i64,
    pub drag_anchor_cursor: (i64, i64),
    /// May be negative between frames; a frame raises it to zero before use.
    pub camera_speed: i64,
    pub position: [i64; 3],
    pub clock_start: u64,
    pub last_frame: u64,
}

/// What the shader program receives for one frame.
#[derive(Clone, Copy, Debug, PartialEq, Eq)]
pub struct FrameUniforms {
    /// Width over height, in millionths.
    pub aspect_ratio: i64,
    pub camera_position: [i64; 3],
    pub rotation_matrix: [[i64; 3]; 3],
    /// Microseconds since the camera was created.
    pub elapsed_time: u64,
    /// Microseconds since the previous frame.
    pub frame_delta: u64,
}

/// Whether holding `button` steers the camera.
pub open spec fn steers(button: MouseButton) -> bool {
    button == MouseButton::Left || button == MouseButton::Middle
}

/// Plus one, zero or minus one: the net direction of two opposite keys.
pub open spec fn axis(positive: bool, negative: bool) -> int {
    (if positive { 1int } else { 0int }) - (if negative { 1int } else { 0int })
}

/// The angle that a drag gives: the anchor angle, turned by `SENSITIVITY` radians for each
/// viewport `extent` that the cursor has travelled from the anchor.
pub open spec fn drag_angle(anchor_angle: i64, anchor_cursor: i64, cursor: i64, extent: u32) -> int {
    anchor_angle - quotient((anchor_cursor - cursor) * SENSITIVITY, extent as int)
}

/// Viewport width over height, in millionths.
pub open spec fn aspect(viewport: (u32, u32)) -> i64 {
    ((viewport.0 * ONE) / (viewport.1 as int)) as i64
}

/// The position after a displacement: never below `FLOOR`.
pub open spec fn advanced(position: [i64; 3], by: [i64; 3]) -> [i64; 3] {
    let height = saturate(position[1] + by[1]);
    [
        saturate(position[0] + by[0]),
        if height < FLOOR { FLOOR } else { height },
        saturate(position[2] + by[2]),
    ]
}

impl Event {
    /// A resize never reports an empty viewport.
    pub open spec fn wf(self) -> bool {
        self matches Event::Resized { width, height } ==> width >= 1 && height >= 1
    }

    /// Whether the event is one that `handle_event` takes.
    pub fn is_valid(&self) -> (valid: bool)
        ensures
            valid == self.wf(),
    {
        match self {
            Event::Resized { width, height } => *width >= 1 && *height >= 1,
            _ => true,
        }
    }
}

impl FrameInput {
    /// The viewport is not empty, pitch and its anchor are at most a quarter turn either
    /// way, and the camera is not below the floor.
    pub open spec fn wf(self) -> bool {
        &&& self.viewport.0 >= 1
        &&& self.viewport.1 >= 1
        &&& -HALF_PI <= self.pitch <= HALF_PI
        &&& -HALF_PI <= self.drag_anchor_pitch <= HALF_PI
        &&& self.position[1] >= FLOOR
    }

    /// The state of a camera created at time `now` for a viewport of the given size.
    pub open spec fn initial(width: u32, height: u32, now: u64) -> FrameInput {
        FrameInput {
            cursor: (0, 0),
            viewport: (width, height),
            movement_keys: MovementKeys { forward: false, backward: false, left: false, right: false },
            drag_active: false,
            drag_just_started: false,
            yaw: 0,
            pitch: 0,
            drag_anchor_yaw: 0,
            drag_anchor_pitch: 0,
            drag_anchor_cursor: (0, 0),
            camera_speed: DEFAULT_SPEED,
            position: [0i64, ONE, 0i64],
            clock_start: now,
            last_frame: now,
        }
    }

    /// The state after a key went down or up.
    pub open spec fn after_key(self, key: Key, pressed: bool) -> FrameInput {
        match key {
            Key::Forward => FrameInput {
                movement_keys: MovementKeys { forward: pressed, ..self.movement_keys },
                ..self
            },
            Key::Backward => FrameInput {
                movement_keys: MovementKeys { backward: pressed, ..self.movement_keys },
                ..self
            },
            Key::Left => FrameInput {
                movement_keys: MovementKeys { left: pressed, ..self.movement_keys },
                ..self
            },
            Key::Right => FrameInput {
                movement_keys: MovementKeys { right: pressed, ..self.movement_keys },
                ..self
            },
            Key::Faster => FrameInput {
                camera_speed: saturate(self.camera_speed + SPEED_STEP),
                ..self
            },
            Key::Slower => FrameInput {
                camera_speed: saturate(self.camera_speed - SPEED_STEP),
                ..self
            },
            Key::Other => self,
        }
    }

    /// The state after the wheel turned by `delta`: scrolling forward slows the camera.
    pub open spec fn after_scroll(self, delta: i64) -> FrameInput {
        FrameInput {
            camera_speed: saturate(
                self.camera_speed - saturate(product(delta as int, SCROLL_SCALE as int)),
            ),
            ..self
        }
    }

    /// The state after a pointer button went down or up.
    pub open spec fn after_mouse_button(self, button: MouseButton, pressed: bool) -> FrameInput {
        if !steers(button) {
            self
        } else if pressed {
            FrameInput { drag_active: true, drag_just_started: true, ..self }
        } else {
            FrameInput { drag_active: false, ..self }
        }
    }

    /// The state after the pointer moved to `(x, y)`.
    pub open spec fn after_cursor_move(self, x: i64, y: i64) -> FrameInput {
        FrameInput { cursor: (x, y), ..self }
    }

    /// The state after the viewport took a new size.
    pub open spec fn after_resize(self, width: u32, height: u32) -> FrameInput {
        FrameInput { viewport: (width, height), ..self }
    }

    /// The state after any one event.
    pub open spec fn after_event(self, event: Event) -> FrameInput {
        match event {
            Event::Key { key, pressed } => self.after_key(key, pressed),
            Event::MouseButton { button, pressed } => self.after_mouse_button(button, pressed),
            Event::CursorMoved { x, y } => self.after_cursor_move(x, y),
            Event::Resized { width, height } => self.after_resize(width, height),
            Event::Scroll { delta } => self.after_scroll(delta),
        }
    }

    /// The state with the anchors of the drag taken, if this is the first frame of a drag.
    pub open spec fn anchored(self) -> FrameInput {
        if self.drag_active && self.drag_just_started {
            FrameInput {
                drag_just_started: false,
                drag_anchor_yaw: self.yaw,
                drag_anchor_pitch: self.pitch,
                drag_anchor_cursor: self.cursor,
                ..self
            }
        } else {
            self
        }
    }

    /// The state after the drag has been turned into yaw and pitch. Without a drag
    /// nothing changes.
    pub open spec fn steered(self) -> FrameInput {
        if !self.drag_active {
            self
        } else {
            let a = self.anchored();
            FrameInput {
                yaw: saturate(
                    drag_angle(a.drag_anchor_yaw, a.drag_anchor_cursor.0, a.cursor.0, a.viewport.0),
                ),
                pitch: clamp(
                    drag_angle(
                        a.drag_anchor_pitch,
                        a.drag_anchor_cursor.1,
                        a.cursor.1,
                        a.viewport.1,
                    ),
                    -HALF_PI as int,
                    HALF_PI as int,
                ) as i64,
                ..a
            }
        }
    }

    /// The speed that a frame moves with: `camera_speed`, or zero where that is negative.
    pub open spec fn speed(self) -> i64 {
        if self.camera_speed < 0 {
            0
        } else {
            self.camera_speed
        }
    }

    /// The displacement in the camera's own axes over `delta` microseconds: x to the
    /// right, z forward, nothing along y.
    pub open spec fn movement(self, delta: u64) -> [i64; 3] {
        let travel = product(self.speed() as int, delta as int);
        [
            saturate(axis(self.movement_keys.right, self.movement_keys.left) * travel),
            0i64,
            saturate(axis(self.movement_keys.forward, self.movement_keys.backward) * travel),
        ]
    }

    /// The state after the frame at time `now` has been derived, but for `last_frame`.
    pub open spec fn calculated(self, now: u64, trig: Trig) -> FrameInput {
        let world = rotated(rotation(trig), self.movement(elapsed(self.last_frame, now)));
        FrameInput {
            camera_speed: self.speed(),
            position: advanced(self.position, world),
            ..self.steered()
        }
    }

    /// The uniforms of the frame at time `now`.
    pub open spec fn uniforms(self, now: u64, trig: Trig) -> FrameUniforms {
        FrameUniforms {
            aspect_ratio: aspect(self.viewport),
            camera_position: self.calculated(now, trig).position,
            rotation_matrix: rotation(trig),
            elapsed_time: elapsed(self.clock_start, now),
            frame_delta: elapsed(self.last_frame, now),
        }
    }

    /// The state after the frame at time `now`.
    pub open spec fn updated(self, now: u64, trig: Trig) -> FrameInput {
        FrameInput { last_frame: now, ..self.calculated(now, trig) }
    }

    /// Whether the state is one that a frame can be derived from. It is, unless the
    /// host has written to the fields itself.
    pub fn is_valid(&self) -> (valid: bool)
        ensures
            valid == self.wf(),
    {
        self.viewport.0 >= 1 && self.viewport.1 >= 1 && -HALF_PI <= self.pitch && self.pitch
            <= HALF_PI && -HALF_PI <= self.drag_anchor_pitch && self.drag_anchor_pitch <= HALF_PI
            && self.position[1] >= FLOOR
    }

    /// A camera at rest one unit above the origin, looking straight ahead, created at
    /// time `now` for a viewport of `width` by `height` pixels.
    pub fn new(width: u32, height: u32, now: u64) -> (state: FrameInput)
        requires
            width >= 1,
            height >= 1,
        ensures
            state == FrameInput::initial(width, height, now),
            state.wf(),
    {
        FrameInput {
            cursor: (0, 0),
            viewport: (width, height),
            movement_keys: MovementKeys { forward: false, backward: false, left: false, right: false },
            drag_active: false,
            drag_just_started: false,
            yaw: 0,
            pitch: 0,
            drag_anchor_yaw: 0,
            drag_anchor_pitch: 0,
            drag_anchor_cursor: (0, 0),
            camera_speed: DEFAULT_SPEED,
            position: [0, ONE, 0],
            clock_start: now,
            last_frame: now,
        }
    }

    /// Records that a key went down or up. A movement key is held or released; every
    /// event of a speed key, down or up, changes the speed by one step.
    pub fn on_key(&mut self, key: Key, pressed: bool)
        ensures
            *final(self) == old(self).after_key(key, pressed),
            final(self).yaw == old(self).yaw,
            final(self).pitch == old(self).pitch,
            old(self).wf() ==> final(self).wf(),
    {
        match key {
            Key::Forward => {
                self.movement_keys.forward = pressed;
            },
            Key::Backward => {
                self.movement_keys.backward = pressed;
            },
            Key::Left => {
                self.movement_keys.left = pressed;
            },
            Key::Right => {
                self.movement_keys.right = pressed;
            },
            Key::Faster => {
                self.camera_speed = saturating(self.camera_speed as i128 + SPEED_STEP as i128);
            },
            Key::Slower => {
                self.camera_speed = saturating(self.camera_speed as i128 - SPEED_STEP as i128);
            },
            Key::Other => {},
        }
    }

    /// Records a turn of the scroll wheel by `delta` lines: the speed falls by half a
    /// unit per second for each line, and may fall below zero until the next frame.
    pub fn on_scroll(&mut self, delta: i64)
        ensures
            *final(self) == old(self).after_scroll(delta),
            old(self).wf() ==> final(self).wf(),
    {
        let change: i64 = multiply(delta, SCROLL_SCALE);
        self.camera_speed = saturating(self.camera_speed as i128 - change as i128);
    }

    /// Records that a pointer button went down or up. Pressing the left or the middle
    /// button begins a drag; releasing either ends it and leaves yaw and pitch as they are.
    pub fn on_mouse_button(&mut self, button: MouseButton, pressed: bool)
        ensures
            *final(self) == old(self).after_mouse_button(button, pressed),
            final(self).yaw == old(self).yaw,
            final(self).pitch == old(self).pitch,
            old(self).wf() ==> final(self).wf(),
    {
        match button {
            MouseButton::Left | MouseButton::Middle => {
                if pressed {
                    self.drag_active = true;
                    self.drag_just_started = true;
                } else {
                    self.drag_active = false;
                }
            },
            _ => {},
        }
    }

    /// Records the pointer's new position.
    pub fn on_cursor_move(&mut self, x: i64, y: i64)
        ensures
            *final(self) == old(self).after_cursor_move(x, y),
            old(self).wf() ==> final(self).wf(),
    {
        self.cursor = (x, y);
    }

    /// Records the viewport's new size, which is never empty.
    pub fn on_resize(&mut self, width: u32, height: u32)
        requires
            width >= 1,
            height >= 1,
        ensures
            *final(self) == old(self).after_resize(width, height),
            old(self).wf() ==> final(self).wf(),
    {
        self.viewport = (width, height);
    }

    /// Records any one event.
    pub fn handle_event(&mut self, event: Event)
        requires
            event.wf(),
        ensures
            *final(self) == old(self).after_event(event),
            old(self).wf() ==> final(self).wf(),
    {
        match event {
            Event::Key { key, pressed } => self.on_key(key, pressed),
            Event::MouseButton { button, pressed } => self.on_mouse_button(button, pressed),
            Event::CursorMoved { x, y } => self.on_cursor_move(x, y),
            Event::Resized { width, height } => self.on_resize(width, height),
            Event::Scroll { delta } => self.on_scroll(delta),
        }
    }

    /// Turns the drag into yaw and pitch and returns both. The first frame of a drag
    /// takes the current orientation and cursor as anchors; every frame of the drag then
    /// sets yaw and pitch from the anchors and the cursor's distance from its anchor.
    /// Pitch stops at a quarter turn either way. Without a drag nothing changes.
    pub fn steer(&mut self) -> (orientation: (i64, i64))
        requires
            old(self).wf(),
        ensures
            *final(self) == old(self).steered(),
            orientation == (final(self).yaw, final(self).pitch),
            !old(self).drag_active ==> *final(self) == *old(self),
            -HALF_PI <= final(self).pitch <= HALF_PI,
            final(self).wf(),
    {
        if self.drag_active {
            if self.drag_just_started {
                self.drag_just_started = false;
                self.drag_anchor_yaw = self.yaw;
                self.drag_anchor_pitch = self.pitch;
                self.drag_anchor_cursor = self.cursor;
            }
            let yaw: i128 = dragged(
                self.drag_anchor_yaw,
                self.drag_anchor_cursor.0,
                self.cursor.0,
                self.viewport.0,
            );
            let pitch: i128 = dragged(
                self.drag_anchor_pitch,
                self.drag_anchor_cursor.1,
                self.cursor.1,
                self.viewport.1,
            );
            self.yaw = saturating(yaw);
            self.pitch = if pitch < -(HALF_PI as i128) {
                -HALF_PI
            } else if pitch > HALF_PI as i128 {
                HALF_PI
            } else {
                pitch as i64
            };
        }
        (self.yaw, self.pitch)
    }

    /// The displacement in the camera's own axes over `delta` microseconds. Opposite
    /// keys cancel; no time or no speed gives no movement.
    pub fn movement_vector(&self, delta: u64) -> (mv: [i64; 3])
        ensures
            mv == self.movement(delta),
    {
        let speed: i64 = if self.camera_speed < 0 { 0 } else { self.camera_speed };
        proof {
            lemma_product_fits(speed as int, delta as int);
        }
        let travel: i128 = divide((speed as i128) * (delta as i128), ONE as i128);
        proof {
            lemma_quotient_between(speed * delta, ONE as int);
        }
        let mv: [i64; 3] = [
            saturating(directed(self.movement_keys.right, self.movement_keys.left, travel)),
            0,
            saturating(directed(self.movement_keys.forward, self.movement_keys.backward, travel)),
        ];
        mv
    }

    /// Derives the frame at time `now`: raises a negative speed to zero, turns the drag
    /// into yaw and pitch, moves the camera by the held keys' displacement rotated into
    /// world space, keeps it above the floor, and returns the uniforms. `trig` holds
    /// the sines and cosines of the yaw and pitch that `steer` returns.
    pub fn calculate_data(&mut self, now: u64, trig: Trig) -> (uniforms: FrameUniforms)
        requires
            old(self).wf(),
            trig.wf(),
        ensures
            *final(self) == old(self).calculated(now, trig),
            uniforms == old(self).uniforms(now, trig),
            uniforms.camera_position == final(self).position,
            !old(self).drag_active ==> final(self).yaw == old(self).yaw,
            !old(self).drag_active ==> final(self).pitch == old(self).pitch,
            -HALF_PI <= final(self).pitch <= HALF_PI,
            final(self).position[1] >= FLOOR,
            final(self).camera_speed >= 0,
            final(self).wf(),
    {
        let delta: u64 = elapsed_between(self.last_frame, now);
        if self.camera_speed < 0 {
            self.camera_speed = 0;
        }
        let mv: [i64; 3] = self.movement_vector(delta);
        self.steer();
        let matrix: [[i64; 3]; 3] = rotation_matrix(trig);
        let world: [i64; 3] = rotate(&matrix, &mv);
        let height: i64 = saturating(self.position[1] as i128 + world[1] as i128);
        self.position = [
            saturating(self.position[0] as i128 + world[0] as i128),
            if height < FLOOR { FLOOR } else { height },
            saturating(self.position[2] as i128 + world[2] as i128),
        ];
        FrameUniforms {
            aspect_ratio: aspect_ratio(self.viewport.0, self.viewport.1),
            camera_position: self.position,
            rotation_matrix: matrix,
            elapsed_time: elapsed_between(self.clock_start, now),
            frame_delta: delta,
        }
    }

    /// Derives the frame at time `now` as `calculate_data` does, then records `now` as
    /// the time of the last frame.
    pub fn update(&mut self, now: u64, trig: Trig) -> (uniforms: FrameUniforms)
        requires
            old(self).wf(),
            trig.wf(),
        ensures
            *final(self) == old(self).updated(now, trig),
            uniforms == old(self).uniforms(now, trig),
            final(self).last_frame == now,
            final(self).wf(),
    {
        let uniforms: FrameUniforms = self.calculate_data(now, trig);
        self.last_frame = now;
        uniforms
    }
}

/// Viewport width over height, in millionths.
pub fn aspect_ratio(width: u32, height: u32) -> (ratio: i64)
    requires
        height >= 1,
    ensures
        ratio == aspect((width, height)),
        0 <= ratio <= u32::MAX * ONE,
{
    let scaled: u64 = (width as u64) * 1_000_000;
    proof {
        lemma_quotient_between(scaled as int, height as int);
    }
    let ratio: u64 = scaled / (height as u64);
    ratio as i64
}

fn directed(positive: bool, negative: bool, travel: i128) -> (d: i128)
    requires
        travel >= 0,
    ensures
        d == axis(positive, negative) * travel,
{
    let ghost sign = axis(positive, negative);
    if positive == negative {
        assert(sign * travel == 0) by (nonlinear_arith)
            requires
                sign == 0,
        ;
        0
    } else if positive {
        assert(sign * travel == travel) by (nonlinear_arith)
            requires
                sign == 1,
        ;
        travel
    } else {
        assert(sign * travel == -travel) by (nonlinear_arith)
            requires
                sign == -1,
        ;
        -travel
    }
}

fn dragged(anchor_angle: i64, anchor_cursor: i64, cursor: i64, extent: u32) -> (angle: i128)
    requires
        extent >= 1,
    ensures
        angle == drag_angle(anchor_angle, anchor_cursor, cursor, extent),
        -0x8_0000_0000_0000_0000 <= angle <= 0x8_0000_0000_0000_0000,
{
    let travelled: i128 = anchor_cursor as i128 - cursor as i128;
    assert(SENSITIVITY == 4);
    proof {
        lemma_quotient_between(travelled * SENSITIVITY, extent as int);
    }
    let turn: i128 = divide(travelled * (SENSITIVITY as i128), extent as i128);
    anchor_angle as i128 - turn
}

} // verus!
