//! Turns input events and elapsed time into camera motion.

use vstd::prelude::*;
use crate::angle::{
    clamp_i128, clamp_pitch, clamp_spec, div_trunc, wrap_angle, wrap_spec, PI, SAFE_HALF_PI,
    TWO_PI,
};
use crate::camera::Camera;
use crate::geometry::{abs, mul_bounded, Point3, DIRECTION_UNIT};
use crate::orbit::{OrbitCamera, MAX_ORBIT_RADIUS, POLAR_MARGIN};

verus! {

/// Scroll input smaller than this (in thousandths of a notch) is noise.
pub const SCROLL_DEADZONE: i32 = 10;

/// Microseconds per second.
pub const MICROS_PER_SECOND: i128 = 1_000_000;

/// The keys the controller reacts to, and all others.
#[derive(Clone, Copy, Debug, PartialEq, Eq, Structural)]
pub enum Key {
    W,
    A,
    S,
    D,
    Up,
    Down,
    Left,
    Right,
    Space,
    LeftShift,
    Escape,
    Other,
}

/// What happened to a key.
#[derive(Clone, Copy, Debug, PartialEq, Eq, Structural)]
pub enum Action {
    Press,
    Release,
    Repeat,
}

/// An input event: a key change, the pointer's new position (pixels), a scroll
/// (thousandths of a notch on each axis), a new framebuffer size, or anything else.
#[derive(Clone, Copy, Debug, PartialEq, Eq, Structural)]
pub enum InputEvent {
    Key(Key, Action),
    CursorPos(i32, i32),
    Scroll(i32, i32),
    FramebufferResized(i32, i32),
    Other,
}

/// Movement flags, the pending pointer and scroll deltas since the last update,
/// and the tuning: `speed` in length steps per second, `sensitivity` in
/// thousandths (of a radian per pixel per second when turning).
#[derive(Clone, Copy, Debug, PartialEq, Eq, Structural)]
pub struct CameraController {
    pub amount_left: bool,
    pub amount_right: bool,
    pub amount_forward: bool,
    pub amount_backward: bool,
    pub amount_up: bool,
    pub amount_down: bool,
    pub rotate_horizontal: i64,
    pub rotate_vertical: i64,
    pub old_cursor_x: i32,
    pub old_cursor_y: i32,
    pub scroll: i64,
    pub speed: u32,
    pub sensitivity: u16,
}

/// Whether the controller reacts to `key`.
pub open spec fn handles_key(key: Key) -> bool {
    !(key == Key::Escape || key == Key::Other)
}

/// `c` after `key` changed by `action`: pressed or repeated sets the key's flag,
/// released clears it.
pub open spec fn key_applied(c: CameraController, key: Key, action: Action) -> CameraController {
    let on = action != Action::Release;
    match key {
        Key::W | Key::Up => CameraController { amount_forward: on, ..c },
        Key::S | Key::Down => CameraController { amount_backward: on, ..c },
        Key::A | Key::Left => CameraController { amount_left: on, ..c },
        Key::D | Key::Right => CameraController { amount_right: on, ..c },
        Key::Space => CameraController { amount_up: on, ..c },
        Key::LeftShift => CameraController { amount_down: on, ..c },
        _ => c,
    }
}

/// `c` after a scroll of `amount`: input below the dead zone is dropped, any other
/// replaces the pending scroll with its negation.
pub open spec fn scroll_applied(c: CameraController, amount: i32) -> CameraController {
    if abs(amount as int) < SCROLL_DEADZONE {
        c
    } else {
        CameraController { scroll: -amount as i64, ..c }
    }
}

/// `c` after the pointer moved to `(x, y)`.
pub open spec fn pointer_applied(c: CameraController, x: i32, y: i32) -> CameraController {
    CameraController {
        rotate_horizontal: (x - c.old_cursor_x) as i64,
        rotate_vertical: (y - c.old_cursor_y) as i64,
        old_cursor_x: x,
        old_cursor_y: y,
        ..c
    }
}

/// `c` after an event; the second component says whether the controller handled it.
pub open spec fn event_applied(c: CameraController, e: InputEvent) -> (CameraController, bool) {
    match e {
        InputEvent::Key(k, a) => (key_applied(c, k, a), handles_key(k)),
        InputEvent::CursorPos(x, y) => (pointer_applied(c, x, y), true),
        InputEvent::Scroll(_, y) => (scroll_applied(c, y), true),
        _ => (c, false),
    }
}

/// `1`, `-1` or `0`: the direction of a pair of opposed movement flags.
pub open spec fn direction_of(pos: bool, neg: bool) -> int {
    (if pos { 1int } else { 0int }) - (if neg { 1int } else { 0int })
}

/// The change of one position coordinate over `dt` microseconds, given that
/// coordinate of `forward`, `right` and `front`; `vertical` marks the y axis.
pub open spec fn axis_motion(
    c: CameraController,
    forward: int,
    right: int,
    front: int,
    vertical: bool,
    dt: int,
) -> int {
    let s = DIRECTION_UNIT as int;
    let per_second = s * MICROS_PER_SECOND;
    div_trunc(forward * direction_of(c.amount_forward, c.amount_backward) * c.speed * dt, per_second)
        + div_trunc(right * direction_of(c.amount_right, c.amount_left) * c.speed * dt, per_second)
        + div_trunc(front * c.scroll * c.speed * c.sensitivity * dt, per_second * 1_000_000)
        + if vertical {
        div_trunc(direction_of(c.amount_up, c.amount_down) * c.speed * dt, MICROS_PER_SECOND as int)
    } else {
        0
    }
}

/// The turn (microradians) that a pointer delta makes over `dt` microseconds.
pub open spec fn turn(c: CameraController, delta: int, dt: int) -> int {
    div_trunc(delta * c.sensitivity * dt, 1000)
}

pub open spec fn clamp_i32_spec(v: int) -> i32 {
    clamp_spec(v, i32::MIN as int, i32::MAX as int) as i32
}

/// The camera after one first-person update.
pub open spec fn camera_updated(c: CameraController, cam: Camera, dt: int) -> Camera {
    Camera {
        position: Point3 {
            x: clamp_i32_spec(cam.position.x + axis_motion(c, cam.forward.x as int, cam.right.x as int, cam.front.x as int, false, dt)),
            y: clamp_i32_spec(cam.position.y + axis_motion(c, cam.forward.y as int, cam.right.y as int, cam.front.y as int, true, dt)),
            z: clamp_i32_spec(cam.position.z + axis_motion(c, cam.forward.z as int, cam.right.z as int, cam.front.z as int, false, dt)),
        },
        yaw: clamp_spec(cam.yaw + turn(c, c.rotate_horizontal as int, dt), i64::MIN as int, i64::MAX as int) as i64,
        pitch: clamp_spec(cam.pitch - turn(c, c.rotate_vertical as int, dt), -SAFE_HALF_PI, SAFE_HALF_PI as int) as i64,
        ..cam
    }
}

/// The orbit after one update.
pub open spec fn orbit_updated(c: CameraController, o: OrbitCamera, dt: int) -> OrbitCamera {
    OrbitCamera {
        radius: clamp_spec(o.radius + div_trunc(c.scroll * c.speed, 1000), o.min_radius + 1, MAX_ORBIT_RADIUS as int) as i64,
        azimuth: wrap_spec(o.azimuth + turn(c, c.rotate_horizontal as int, dt)) as i64,
        polar: clamp_spec(o.polar + turn(c, c.rotate_vertical as int, dt), POLAR_MARGIN as int, PI - POLAR_MARGIN) as i64,
        ..o
    }
}

/// The controller once an update has consumed the pending deltas.
pub open spec fn consumed(c: CameraController) -> CameraController {
    CameraController { rotate_horizontal: 0, rotate_vertical: 0, scroll: 0, ..c }
}

impl CameraController {
    /// The pending scroll is the negation of one scroll input.
    pub open spec fn wf(&self) -> bool {
        abs(self.scroll as int) <= 0x8000_0000
    }

    /// A controller at rest, with the pointer last seen at `old_cursor_pos`.
    pub fn new(speed: u32, sensitivity: u16, old_cursor_pos: (i32, i32)) -> (r: CameraController)
        ensures
            r == (CameraController {
                amount_left: false,
                amount_right: false,
                amount_forward: false,
                amount_backward: false,
                amount_up: false,
                amount_down: false,
                rotate_horizontal: 0,
                rotate_vertical: 0,
                old_cursor_x: old_cursor_pos.0,
                old_cursor_y: old_cursor_pos.1,
                scroll: 0,
                speed,
                sensitivity,
            }),
            r.wf(),
    {
        CameraController {
            amount_left: false,
            amount_right: false,
            amount_forward: false,
            amount_backward: false,
            amount_up: false,
            amount_down: false,
            rotate_horizontal: 0,
            rotate_vertical: 0,
            old_cursor_x: old_cursor_pos.0,
            old_cursor_y: old_cursor_pos.1,
            scroll: 0,
            speed,
            sensitivity,
        }
    }

    /// Handles an event; returns whether it was one for the controller.
    pub fn process_events(&mut self, event: &InputEvent) -> (r: bool)
        requires
            old(self).wf(),
        ensures
            (*final(self), r) == event_applied(*old(self), *event),
            final(self).wf(),
    {
        match event {
            InputEvent::Key(key, action) => self.process_keyboard(*key, *action),
            InputEvent::CursorPos(x, y) => {
                let dx: i64 = *x as i64 - self.old_cursor_x as i64;
                let dy: i64 = *y as i64 - self.old_cursor_y as i64;
                self.process_mouse(dx, dy);
                self.old_cursor_x = *x;
                self.old_cursor_y = *y;
                true
            },
            InputEvent::Scroll(_, y) => {
                self.process_scroll(*y);
                true
            },
            _ => false,
        }
    }

    /// Sets or clears the movement flag of `key`; returns whether `key` has one.
    pub fn process_keyboard(&mut self, key: Key, state: Action) -> (r: bool)
        ensures
            r == handles_key(key),
            *final(self) == key_applied(*old(self), key, state),
    {
        let amount = match state {
            Action::Release => false,
            _ => true,
        };
        match key {
            Key::W | Key::Up => {
                self.amount_forward = amount;
                true
            },
            Key::S | Key::Down => {
                self.amount_backward = amount;
                true
            },
            Key::A | Key::Left => {
                self.amount_left = amount;
                true
            },
            Key::D | Key::Right => {
                self.amount_right = amount;
                true
            },
            Key::Space => {
                self.amount_up = amount;
                true
            },
            Key::LeftShift => {
                self.amount_down = amount;
                true
            },
            _ => false,
        }
    }

    /// Stores a pointer delta as the pending rotation.
    pub fn process_mouse(&mut self, mouse_dx: i64, mouse_dy: i64)
        ensures
            *final(self) == (CameraController {
                rotate_horizontal: mouse_dx,
                rotate_vertical: mouse_dy,
                ..*old(self)
            }),
    {
        self.rotate_horizontal = mouse_dx;
        self.rotate_vertical = mouse_dy;
    }

    /// Stores a scroll (thousandths of a notch) as the pending zoom, unless it
    /// is below the dead zone.
    pub fn process_scroll(&mut self, scroll: i32)
        ensures
            *final(self) == scroll_applied(*old(self), scroll),
            old(self).wf() ==> final(self).wf(),
    {
        if -SCROLL_DEADZONE < scroll && scroll < SCROLL_DEADZONE {
            return ;
        }
        self.scroll = -(scroll as i64);
    }
}

proof fn lemma_div_trunc_shrinks(a: int, k: int)
    requires
        k >= 1,
    ensures
        abs(div_trunc(a, k)) <= abs(a),
{
    if a >= 0 {
        assert(a / k <= a && a / k >= 0) by (nonlinear_arith)
            requires
                k >= 1,
                a >= 0,
        ;
    } else {
        assert((-a) / k <= -a && (-a) / k >= 0) by (nonlinear_arith)
            requires
                k >= 1,
                -a >= 0,
        ;
    }
}

proof fn lemma_div_trunc_scaled(a: int, k: int)
    requires
        k >= 1,
    ensures
        abs(div_trunc(a, k)) * k <= abs(a),
{
    if a >= 0 {
        assert((a / k) * k <= a && a / k >= 0) by (nonlinear_arith)
            requires
                k >= 1,
                a >= 0,
        ;
    } else {
        assert(((-a) / k) * k <= -a && (-a) / k >= 0) by (nonlinear_arith)
            requires
                k >= 1,
                -a >= 0,
        ;
    }
}

/// `div_trunc` computed on machine integers.
fn div_toward_zero(a: i128, k: i128) -> (r: i128)
    requires
        k >= 1,
    ensures
        r == div_trunc(a as int, k as int),
        abs(r as int) <= abs(a as int),
        abs(r as int) * k <= abs(a as int),
{
    proof {
        lemma_div_trunc_shrinks(a as int, k as int);
        lemma_div_trunc_scaled(a as int, k as int);
    }
    a / k
}

fn direction_exec(pos: bool, neg: bool) -> (r: i128)
    ensures
        r == direction_of(pos, neg),
{
    (if pos {
        1
    } else {
        0
    }) - (if neg {
        1
    } else {
        0
    })
}

/// `div_trunc(component · dir · speed · dt, k)`.
fn move_term(component: i128, dir: i128, speed: u32, dt: u32, k: i128) -> (r: i128)
    requires
        abs(component as int) <= DIRECTION_UNIT,
        abs(dir as int) <= 1,
        k >= 1,
    ensures
        r == div_trunc(component * dir * speed * dt, k as int),
        abs(r as int) <= 0x2000_0000_0000_0000_0000,
{
    let a = mul_bounded(component, dir, Ghost(0x2000int), Ghost(1int));
    let a = mul_bounded(a, speed as i128, Ghost(0x2000int), Ghost(0x1_0000_0000int));
    let a = mul_bounded(a, dt as i128, Ghost(0x2000_0000_0000int), Ghost(0x1_0000_0000int));
    div_toward_zero(a, k)
}

/// `div_trunc(front · scroll · speed · sensitivity · dt, k)`.
fn zoom_term(front: i128, scroll: i64, speed: u32, sensitivity: u16, dt: u32, k: i128) -> (r: i128)
    requires
        abs(front as int) <= DIRECTION_UNIT,
        abs(scroll as int) <= 0x8000_0000,
        k >= 1,
    ensures
        r == div_trunc(front * scroll * speed * sensitivity * dt, k as int),
        abs(r as int) <= 0x1000_0000_0000_0000_0000_0000_0000_0000,
{
    let c = mul_bounded(front, scroll as i128, Ghost(0x2000int), Ghost(0x8000_0000int));
    let c = mul_bounded(c, speed as i128, Ghost(0x1000_0000_0000int), Ghost(0x1_0000_0000int));
    let c = mul_bounded(c, sensitivity as i128, Ghost(0x1000_0000_0000_0000_0000int), Ghost(0x1_0000int));
    let c = mul_bounded(c, dt as i128, Ghost(0x1000_0000_0000_0000_0000_0000int), Ghost(0x1_0000_0000int));
    div_toward_zero(c, k)
}

impl CameraController {
    /// `axis_motion` on machine integers.
    fn axis_motion_exec(&self, forward: i16, right: i16, front: i16, vertical: bool, dt: u32) -> (r:
        i128)
        requires
            self.wf(),
            abs(forward as int) <= DIRECTION_UNIT,
            abs(right as int) <= DIRECTION_UNIT,
            abs(front as int) <= DIRECTION_UNIT,
        ensures
            r == axis_motion(*self, forward as int, right as int, front as int, vertical, dt as int),
            abs(r as int) <= 0x2000_0000_0000_0000_0000_0000_0000_0000,
    {
        let per_second: i128 = DIRECTION_UNIT as i128 * MICROS_PER_SECOND;
        let fb = direction_exec(self.amount_forward, self.amount_backward);
        let rl = direction_exec(self.amount_right, self.amount_left);
        let m1 = move_term(forward as i128, fb, self.speed, dt, per_second);
        let m2 = move_term(right as i128, rl, self.speed, dt, per_second);
        let m3 = zoom_term(front as i128, self.scroll, self.speed, self.sensitivity, dt, per_second * 1_000_000);
        let m4: i128 = if vertical {
            let ud = direction_exec(self.amount_up, self.amount_down);
            move_term(1, ud, self.speed, dt, MICROS_PER_SECOND)
        } else {
            0
        };
        proof {
            assert(1 * direction_of(self.amount_up, self.amount_down) == direction_of(self.amount_up, self.amount_down));
        }
        m1 + m2 + m3 + m4
    }
}

/// `turn` on machine integers.
fn turn_exec(delta: i64, sensitivity: u16, dt: u32) -> (r: i128)
    ensures
        r == div_trunc(delta * sensitivity * dt, 1000),
        abs(r as int) <= 0x1_0000_0000_0000_0000_0000_0000_0000,
{
    let a = mul_bounded(delta as i128, sensitivity as i128, Ghost(0x8000_0000_0000_0000int), Ghost(0x1_0000int));
    let a = mul_bounded(a, dt as i128, Ghost(0x8000_0000_0000_0000_0000int), Ghost(0x1_0000_0000int));
    div_toward_zero(a, 1000)
}

fn clamp_to_i32(v: i128) -> (r: i32)
    ensures
        r == clamp_i32_spec(v as int),
{
    clamp_i128(v, i32::MIN as i128, i32::MAX as i128) as i32
}

impl CameraController {
    /// Moves and turns `camera` for `dt` microseconds of the current input, then
    /// drops the pending pointer and scroll deltas. The camera's basis must
    /// already be the one of its current yaw and pitch.
    ///
    /// Position: along `forward` by the forward/backward flags, along `right` by
    /// the right/left flags, along `front` by the pending scroll (scaled by
    /// `sensitivity` as well), and along y by the up/down flags, each at `speed`;
    /// a coordinate that would leave the `i32` range stops at its end.
    /// Yaw turns by the horizontal pointer delta (stopping at the ends of the
    /// `i64` range); pitch turns against the vertical delta and is clamped into
    /// `[-SAFE_HALF_PI, SAFE_HALF_PI]`.
    pub fn update_camera(&mut self, camera: &mut Camera, dt: u32)
        requires
            old(self).wf(),
            old(camera).wf(),
        ensures
            *final(camera) == camera_updated(*old(self), *old(camera), dt as int),
            *final(self) == consumed(*old(self)),
            -SAFE_HALF_PI <= final(camera).pitch <= SAFE_HALF_PI,
            final(camera).wf(),
            final(self).wf(),
    {
        let fw = camera.forward;
        let rt = camera.right;
        let fr = camera.front;
        let mx = self.axis_motion_exec(fw.x, rt.x, fr.x, false, dt);
        let my = self.axis_motion_exec(fw.y, rt.y, fr.y, true, dt);
        let mz = self.axis_motion_exec(fw.z, rt.z, fr.z, false, dt);
        camera.position = Point3 {
            x: clamp_to_i32(camera.position.x as i128 + mx),
            y: clamp_to_i32(camera.position.y as i128 + my),
            z: clamp_to_i32(camera.position.z as i128 + mz),
        };

        let yaw_turn = turn_exec(self.rotate_horizontal, self.sensitivity, dt);
        let pitch_turn = turn_exec(self.rotate_vertical, self.sensitivity, dt);
        camera.yaw = clamp_i128(camera.yaw as i128 + yaw_turn, i64::MIN as i128, i64::MAX as i128) as i64;
        camera.pitch = clamp_pitch(camera.pitch as i128 - pitch_turn);

        self.rotate_horizontal = 0;
        self.rotate_vertical = 0;
        self.scroll = 0;
    }

    /// Orbits for `dt` microseconds of the current input, then drops the pending
    /// pointer and scroll deltas: the radius changes by the pending scroll times
    /// `speed` (per notch) and stays within `[min_radius + 1, MAX_ORBIT_RADIUS]`,
    /// strictly above the minimum,
    /// the azimuth turns by the horizontal pointer delta and is wrapped into
    /// `[0, TWO_PI)`, the polar angle turns by the vertical delta and is clamped
    /// into `[POLAR_MARGIN, PI − POLAR_MARGIN]`.
    pub fn update_orbit(&mut self, orbit: &mut OrbitCamera, dt: u32)
        requires
            old(self).wf(),
            old(orbit).wf(),
        ensures
            *final(orbit) == orbit_updated(*old(self), *old(orbit), dt as int),
            *final(self) == consumed(*old(self)),
            0 < final(orbit).min_radius < final(orbit).radius,
            0 <= final(orbit).azimuth < TWO_PI,
            POLAR_MARGIN <= final(orbit).polar <= PI - POLAR_MARGIN,
            final(orbit).wf(),
            final(self).wf(),
    {
        let zoom = mul_bounded(self.scroll as i128, self.speed as i128, Ghost(0x8000_0000int), Ghost(0x1_0000_0000int));
        let zoom = div_toward_zero(zoom, 1000);
        orbit.radius = clamp_i128(orbit.radius as i128 + zoom, orbit.min_radius as i128 + 1, MAX_ORBIT_RADIUS as i128) as i64;

        let h = turn_exec(self.rotate_horizontal, self.sensitivity, dt);
        let v = turn_exec(self.rotate_vertical, self.sensitivity, dt);
        orbit.azimuth = wrap_angle(orbit.azimuth as i128 + h);
        orbit.polar = clamp_i128(orbit.polar as i128 + v, POLAR_MARGIN as i128, (PI - POLAR_MARGIN) as i128) as i64;

        self.rotate_horizontal = 0;
        self.rotate_vertical = 0;
        self.scroll = 0;
    }
}

} // verus!
