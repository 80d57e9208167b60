//! The first-person camera: intent flags and accumulated input deltas,
//! integrated over elapsed time into position, yaw and pitch.
//!
//! All state is fixed-point (see `crate::fixed`); angles are fixed-point
//! degrees. Pitch is clamped to just under a right angle in either
//! direction, so the look direction never flips over the vertical axis.
//! The rotation and scroll accumulators are zeroed by every update; the
//! movement flags latch the held keys.

use vstd::prelude::*;
use crate::event::{Event, KeyCode};
use crate::fixed::{
    clamp_i128, clamp_spec, cos_deg, cos_fp, div_trunc, div_trunc_i128, lemma_div_trunc_bound,
    norm360, norm_deg, sin_deg, sin_fp, DEG_270, DEG_360, DEG_90, ONE,
};

verus! {

/// Largest movement speed, in fixed-point units per second.
pub const SPEED_MAX: i64 = 1024 * ONE;

/// Largest look sensitivity.
pub const SENS_MAX: i64 = 64 * ONE;

/// Input deltas are clamped to this magnitude when stored.
pub const DELTA_MAX: i64 = 4096 * ONE;

/// Largest elapsed time accepted by one update, in fixed-point seconds.
pub const DT_MAX: i64 = 64 * ONE;

/// The world range: position components are clamped to this magnitude.
pub const POS_LIMIT: i64 = 2199023255552;

/// Pitch stays within this magnitude: just under a right angle.
pub const PITCH_LIMIT: i64 = DEG_90 - 375;

/// Height of the starting camera position.
pub const START_Y: i64 = 2 * ONE;

/// Distance of the starting camera position from the origin.
pub const START_Z: i64 = 5 * ONE;

/// Starting pitch: looking down at half a right angle.
pub const START_PITCH: i64 = -45 * ONE;

/// Default vertical field of view.
pub const DEFAULT_FOVY: i64 = 45 * ONE;

/// Default near plane, a twentieth of a unit.
pub const DEFAULT_ZNEAR: i64 = 3277;

/// Default far plane.
pub const DEFAULT_ZFAR: i64 = 1000 * ONE;

/// A fixed-point vector in world space.
#[derive(Debug, Clone, Copy, PartialEq, Eq, Structural)]
pub struct Vec3 {
    pub x: i64,
    pub y: i64,
    pub z: i64,
}

/// Where the camera stands and where it looks, in fixed-point degrees.
#[derive(Debug, Clone, Copy, PartialEq, Eq, Structural)]
pub struct Camera {
    pub position: Vec3,
    pub yaw: i64,
    pub pitch: i64,
}

impl Camera {
    pub fn new(position: Vec3, yaw: i64, pitch: i64) -> (c: Camera)
        ensures
            c == (Camera { position, yaw, pitch }),
    {
        Camera { position, yaw, pitch }
    }
}

/// The perspective projection parameters. Only the aspect ratio changes
/// after creation, through `resize`.
#[derive(Debug, Clone, Copy, PartialEq, Eq, Structural)]
pub struct Projection {
    pub width: u32,
    pub height: u32,
    pub fovy: i64,
    pub znear: i64,
    pub zfar: i64,
}

impl Projection {
    /// Both dimensions are positive, as the viewport guarantees.
    pub open spec fn wf(&self) -> bool {
        self.width > 0 && self.height > 0
    }

    pub fn new(width: u32, height: u32, fovy: i64, znear: i64, zfar: i64) -> (p: Projection)
        requires
            width > 0,
            height > 0,
        ensures
            p == (Projection { width, height, fovy, znear, zfar }),
            p.wf(),
    {
        Projection { width, height, fovy, znear, zfar }
    }

    /// Update the aspect ratio only.
    pub fn resize(&mut self, width: u32, height: u32)
        requires
            width > 0,
            height > 0,
        ensures
            *final(self) == (Projection { width, height, ..*old(self) }),
            final(self).wf(),
    {
        self.width = width;
        self.height = height;
    }
}

/// Whether the camera reacts to `key` at all.
pub open spec fn movement_key(key: KeyCode) -> bool {
    ||| key == KeyCode::KeyW
    ||| key == KeyCode::ArrowUp
    ||| key == KeyCode::KeyS
    ||| key == KeyCode::ArrowDown
    ||| key == KeyCode::KeyA
    ||| key == KeyCode::ArrowLeft
    ||| key == KeyCode::KeyD
    ||| key == KeyCode::ArrowRight
    ||| key == KeyCode::Space
    ||| key == KeyCode::ShiftLeft
}

/// The events the camera consumes: recognized movement keys, relative
/// mouse motion and scrolling.
pub open spec fn recognized(event: Event) -> bool {
    match event {
        Event::KeyboardInput { key, .. } => movement_key(key),
        Event::MouseMotion { .. } => true,
        Event::MouseScroll { .. } => true,
        _ => false,
    }
}

/// Drives a [`Camera`] from input events and elapsed time.
pub struct CameraController {
    pub amount_left: bool,
    pub amount_right: bool,
    pub amount_forward: bool,
    pub amount_backward: bool,
    pub amount_up: bool,
    pub amount_down: bool,
    pub rotate_horizontal: i64,
    pub rotate_vertical: i64,
    pub scroll: i64,
    pub speed: i64,
    pub sensitivity: i64,
    pub camera: Camera,
    pub projection: Projection,
}

/// How one event changes the controller: a recognized key sets its intent
/// flag to the key's pressed state, mouse motion and scroll overwrite the
/// pending deltas, clamped to [`DELTA_MAX`]; everything else is ignored.
pub open spec fn process_spec(c: CameraController, event: Event) -> CameraController {
    match event {
        Event::KeyboardInput { key, is_pressed } => {
            if key == KeyCode::KeyW || key == KeyCode::ArrowUp {
                CameraController { amount_forward: is_pressed, ..c }
            } else if key == KeyCode::KeyS || key == KeyCode::ArrowDown {
                CameraController { amount_backward: is_pressed, ..c }
            } else if key == KeyCode::KeyA || key == KeyCode::ArrowLeft {
                CameraController { amount_left: is_pressed, ..c }
            } else if key == KeyCode::KeyD || key == KeyCode::ArrowRight {
                CameraController { amount_right: is_pressed, ..c }
            } else if key == KeyCode::Space {
                CameraController { amount_up: is_pressed, ..c }
            } else if key == KeyCode::ShiftLeft {
                CameraController { amount_down: is_pressed, ..c }
            } else {
                c
            }
        },
        Event::MouseMotion { dx, dy } => CameraController {
            rotate_horizontal: clamp_spec(dx as int, -DELTA_MAX as int, DELTA_MAX as int) as i64,
            rotate_vertical: clamp_spec(dy as int, -DELTA_MAX as int, DELTA_MAX as int) as i64,
            ..c
        },
        Event::MouseScroll { delta } => CameraController {
            scroll: clamp_spec(delta as int, -DELTA_MAX as int, DELTA_MAX as int) as i64,
            ..c
        },
        _ => c,
    }
}

/// How one update changes the controller. Movement uses the yaw and
/// pitch from before the rotation step, as unit direction vectors built
/// from the fixed-point sine; position components are clamped to the
/// world range; pitch is clamped to [`PITCH_LIMIT`]; the consumed
/// rotation and scroll accumulators are zeroed.
pub open spec fn update_spec(c: CameraController, dt: int) -> CameraController {
    let ys = sin_deg(c.camera.yaw as int);
    let yc = cos_deg(c.camera.yaw as int);
    let ps = sin_deg(c.camera.pitch as int);
    let pc = cos_deg(c.camera.pitch as int);
    let fwd = (if c.amount_forward { 1int } else { 0int })
        - (if c.amount_backward { 1int } else { 0int });
    let strafe = (if c.amount_right { 1int } else { 0int })
        - (if c.amount_left { 1int } else { 0int });
    let lift = (if c.amount_up { 1int } else { 0int })
        - (if c.amount_down { 1int } else { 0int });
    let move_scale = c.speed * dt;
    let dx = div_trunc((yc * fwd - ys * strafe) * move_scale, ONE * ONE);
    let dz = div_trunc((ys * fwd + yc * strafe) * move_scale, ONE * ONE);
    let dy = div_trunc(lift * move_scale, ONE as int);
    let dolly = div_trunc(c.scroll * c.sensitivity * move_scale, ONE * ONE * ONE);
    let ddx = div_trunc(pc * yc * dolly, ONE * ONE);
    let ddy = div_trunc(ps * dolly, ONE as int);
    let ddz = div_trunc(pc * ys * dolly, ONE * ONE);
    let dyaw = div_trunc(c.rotate_horizontal * c.sensitivity * dt, ONE * ONE);
    let dpitch = div_trunc(c.rotate_vertical * c.sensitivity * dt, ONE * ONE);
    CameraController {
        camera: Camera {
            position: Vec3 {
                x: clamp_spec(
                    c.camera.position.x + dx + ddx,
                    -POS_LIMIT as int,
                    POS_LIMIT as int,
                ) as i64,
                y: clamp_spec(
                    c.camera.position.y + dy + ddy,
                    -POS_LIMIT as int,
                    POS_LIMIT as int,
                ) as i64,
                z: clamp_spec(
                    c.camera.position.z + dz + ddz,
                    -POS_LIMIT as int,
                    POS_LIMIT as int,
                ) as i64,
            },
            yaw: norm360(c.camera.yaw + dyaw) as i64,
            pitch: clamp_spec(
                c.camera.pitch - dpitch,
                -PITCH_LIMIT as int,
                PITCH_LIMIT as int,
            ) as i64,
        },
        rotate_horizontal: 0,
        rotate_vertical: 0,
        scroll: 0,
        ..c
    }
}

impl CameraController {
    /// Speed, sensitivity and accumulators stay in their ranges, the
    /// position inside the world range, yaw reduced, pitch clamped, and
    /// the projection live.
    pub open spec fn wf(&self) -> bool {
        &&& 0 <= self.speed <= SPEED_MAX
        &&& 0 <= self.sensitivity <= SENS_MAX
        &&& -DELTA_MAX <= self.rotate_horizontal <= DELTA_MAX
        &&& -DELTA_MAX <= self.rotate_vertical <= DELTA_MAX
        &&& -DELTA_MAX <= self.scroll <= DELTA_MAX
        &&& -POS_LIMIT <= self.camera.position.x <= POS_LIMIT
        &&& -POS_LIMIT <= self.camera.position.y <= POS_LIMIT
        &&& -POS_LIMIT <= self.camera.position.z <= POS_LIMIT
        &&& 0 <= self.camera.yaw < DEG_360
        &&& -PITCH_LIMIT <= self.camera.pitch <= PITCH_LIMIT
        &&& self.projection.wf()
    }

    /// Creates a controller with the camera a little above and behind the
    /// origin, looking toward negative z and pitched down.
    pub fn new(speed: i64, sensitivity: i64, width: u32, height: u32) -> (c: CameraController)
        requires
            0 <= speed <= SPEED_MAX,
            0 <= sensitivity <= SENS_MAX,
            width > 0,
            height > 0,
        ensures
            c.wf(),
            c.speed == speed,
            c.sensitivity == sensitivity,
            c.camera.position == (Vec3 { x: 0, y: START_Y, z: START_Z }),
            c.camera.yaw == DEG_270,
            c.camera.pitch == START_PITCH,
            !c.amount_forward && !c.amount_backward && !c.amount_left && !c.amount_right
                && !c.amount_up && !c.amount_down,
            c.rotate_horizontal == 0 && c.rotate_vertical == 0 && c.scroll == 0,
            c.projection == (Projection {
                width,
                height,
                fovy: DEFAULT_FOVY,
                znear: DEFAULT_ZNEAR,
                zfar: DEFAULT_ZFAR,
            }),
    {
        let camera = Camera::new(Vec3 { x: 0, y: START_Y, z: START_Z }, DEG_270, START_PITCH);
        let projection = Projection::new(width, height, DEFAULT_FOVY, DEFAULT_ZNEAR, DEFAULT_ZFAR);

        CameraController {
            camera,
            projection,
            amount_left: false,
            amount_right: false,
            amount_forward: false,
            amount_backward: false,
            amount_up: false,
            amount_down: false,
            rotate_horizontal: 0,
            rotate_vertical: 0,
            scroll: 0,
            speed,
            sensitivity,
        }
    }

    /// Consume one event. Returns true exactly for the events the camera
    /// recognizes, so the caller may short-circuit further propagation.
    pub fn process_events(&mut self, event: Event) -> (consumed: bool)
        requires
            old(self).wf(),
        ensures
            consumed == recognized(event),
            *final(self) == process_spec(*old(self), event),
            final(self).wf(),
    {
        match event {
            Event::KeyboardInput { key, is_pressed } => {
                match key {
                    KeyCode::KeyW | KeyCode::ArrowUp => {
                        self.amount_forward = is_pressed;
                        true
                    },
                    KeyCode::KeyS | KeyCode::ArrowDown => {
                        self.amount_backward = is_pressed;
                        true
                    },
                    KeyCode::KeyA | KeyCode::ArrowLeft => {
                        self.amount_left = is_pressed;
                        true
                    },
                    KeyCode::KeyD | KeyCode::ArrowRight => {
                        self.amount_right = is_pressed;
                        true
                    },
                    KeyCode::Space => {
                        self.amount_up = is_pressed;
                        true
                    },
                    KeyCode::ShiftLeft => {
                        self.amount_down = is_pressed;
                        true
                    },
                    _ => false,
                }
            },
            Event::MouseMotion { dx, dy } => {
                self.rotate_horizontal = clamp_delta(dx);
                self.rotate_vertical = clamp_delta(dy);
                true
            },
            Event::MouseScroll { delta } => {
                self.scroll = clamp_delta(delta);
                true
            },
            _ => false,
        }
    }

    /// Integrate the held intents, pending rotation and scroll over `dt`
    /// fixed-point seconds of elapsed time.
    pub fn update(&mut self, dt: i64)
        requires
            old(self).wf(),
            0 <= dt <= DT_MAX,
        ensures
            *final(self) == update_spec(*old(self), dt as int),
            final(self).wf(),
            -PITCH_LIMIT <= final(self).camera.pitch <= PITCH_LIMIT,
    {
        let ys: i64 = sin_fp(self.camera.yaw);
        let yc: i64 = cos_fp(self.camera.yaw);
        let ps: i64 = sin_fp(self.camera.pitch);
        let pc: i64 = cos_fp(self.camera.pitch);

        let fwd: i64 = (if self.amount_forward { 1 } else { 0 }) - (if self.amount_backward {
            1
        } else {
            0
        });
        let strafe: i64 = (if self.amount_right { 1 } else { 0 }) - (if self.amount_left {
            1
        } else {
            0
        });
        let lift: i64 = (if self.amount_up { 1 } else { 0 }) - (if self.amount_down {
            1
        } else {
            0
        });

        let ysw: i128 = ys as i128;
        let ycw: i128 = yc as i128;
        let psw: i128 = ps as i128;
        let pcw: i128 = pc as i128;
        let speed_w: i128 = self.speed as i128;
        let dt_w: i128 = dt as i128;
        let scroll_w: i128 = self.scroll as i128;
        let sens_w: i128 = self.sensitivity as i128;
        let rot_h_w: i128 = self.rotate_horizontal as i128;
        let rot_v_w: i128 = self.rotate_vertical as i128;

        let fwd_w: i128 = fwd as i128;
        let strafe_w: i128 = strafe as i128;
        let lift_w: i128 = lift as i128;

        // Move along the horizontal forward and right directions.
        assert(0 <= speed_w * dt_w <= 0x1000000000000) by (nonlinear_arith)
            requires
                0 <= speed_w <= 0x4000000,
                0 <= dt_w <= 0x400000,
        ;
        let move_scale: i128 = speed_w * dt_w;
        assert(-0x10000 <= ycw * fwd_w <= 0x10000 && -0x10000 <= ysw * strafe_w <= 0x10000
            && -0x10000 <= ysw * fwd_w <= 0x10000 && -0x10000 <= ycw * strafe_w
            <= 0x10000) by (nonlinear_arith)
            requires
                -0x10000 <= ysw <= 0x10000,
                -0x10000 <= ycw <= 0x10000,
                -1 <= fwd_w <= 1,
                -1 <= strafe_w <= 1,
        ;
        let hx: i128 = ycw * fwd_w - ysw * strafe_w;
        let hz: i128 = ysw * fwd_w + ycw * strafe_w;
        assert(-0x20000000000000000 <= hx * move_scale <= 0x20000000000000000 && -0x20000000000000000
            <= hz * move_scale <= 0x20000000000000000) by (nonlinear_arith)
            requires
                -0x20000 <= hx <= 0x20000,
                -0x20000 <= hz <= 0x20000,
                0 <= move_scale <= 0x1000000000000,
        ;
        let dx: i128 = div_trunc_i128(hx * move_scale, 4294967296);
        let dz: i128 = div_trunc_i128(hz * move_scale, 4294967296);
        assert(-0x1000000000000 <= lift_w * move_scale <= 0x1000000000000) by (nonlinear_arith)
            requires
                -1 <= lift_w <= 1,
                0 <= move_scale <= 0x1000000000000,
        ;
        let dy: i128 = div_trunc_i128(lift_w * move_scale, 65536);

        // Dolly along the full look direction by the pending scroll.
        assert(-0x4000000000000 <= scroll_w * sens_w <= 0x4000000000000) by (nonlinear_arith)
            requires
                -0x10000000 <= scroll_w <= 0x10000000,
                0 <= sens_w <= 0x400000,
        ;
        let scroll_scale: i128 = scroll_w * sens_w;
        assert(-0x4000000000000000000000000 <= scroll_scale * move_scale
            <= 0x4000000000000000000000000) by (nonlinear_arith)
            requires
                -0x4000000000000 <= scroll_scale <= 0x4000000000000,
                0 <= move_scale <= 0x1000000000000,
        ;
        let dolly_raw: i128 = scroll_scale * move_scale;
        let dolly: i128 = div_trunc_i128(dolly_raw, 281474976710656);
        proof {
            lemma_div_trunc_bound(
                dolly_raw as int,
                281474976710656,
                0x4000000000000000000000000,
            );
        }
        assert(-0x100000000 <= pcw * ycw <= 0x100000000 && -0x100000000 <= pcw * ysw
            <= 0x100000000) by (nonlinear_arith)
            requires
                -0x10000 <= pcw <= 0x10000,
                -0x10000 <= ycw <= 0x10000,
                -0x10000 <= ysw <= 0x10000,
        ;
        let look_x: i128 = pcw * ycw;
        let look_z: i128 = pcw * ysw;
        assert(-0x400000000000000000000 <= look_x * dolly <= 0x400000000000000000000
            && -0x400000000000000000000 <= look_z * dolly <= 0x400000000000000000000
            && -0x40000000000000000 <= psw * dolly <= 0x40000000000000000) by (nonlinear_arith)
            requires
                -0x100000000 <= look_x <= 0x100000000,
                -0x100000000 <= look_z <= 0x100000000,
                -0x10000 <= psw <= 0x10000,
                -0x4000000000000 <= dolly <= 0x4000000000000,
        ;
        let ddx: i128 = div_trunc_i128(look_x * dolly, 4294967296);
        let ddz: i128 = div_trunc_i128(look_z * dolly, 4294967296);
        let ddy: i128 = div_trunc_i128(psw * dolly, 65536);

        // Rotate by the pending deltas, scaled by sensitivity and time.
        assert(0 <= sens_w * dt_w <= 0x100000000000) by (nonlinear_arith)
            requires
                0 <= sens_w <= 0x400000,
                0 <= dt_w <= 0x400000,
        ;
        let rot_scale: i128 = sens_w * dt_w;
        assert(-0x1000000000000000000 <= rot_h_w * rot_scale <= 0x1000000000000000000
            && -0x1000000000000000000 <= rot_v_w * rot_scale
            <= 0x1000000000000000000) by (nonlinear_arith)
            requires
                -0x10000000 <= rot_h_w <= 0x10000000,
                -0x10000000 <= rot_v_w <= 0x10000000,
                0 <= rot_scale <= 0x100000000000,
        ;
        let dyaw_raw: i128 = rot_h_w * rot_scale;
        let dpitch_raw: i128 = rot_v_w * rot_scale;
        let ghost rh0: int = self.rotate_horizontal as int;
        let ghost rv0: int = self.rotate_vertical as int;
        let ghost sn0: int = self.sensitivity as int;
        assert(dyaw_raw == rh0 * sn0 * dt && dpitch_raw == rv0 * sn0 * dt) by (nonlinear_arith)
            requires
                dyaw_raw == rot_h_w * rot_scale,
                dpitch_raw == rot_v_w * rot_scale,
                rot_scale == sens_w * dt_w,
                rot_h_w == rh0,
                rot_v_w == rv0,
                sens_w == sn0,
                dt_w == dt,
        ;
        let dyaw: i128 = div_trunc_i128(dyaw_raw, 4294967296);
        let dpitch: i128 = div_trunc_i128(dpitch_raw, 4294967296);
        proof {
            lemma_div_trunc_bound(dyaw_raw as int, 4294967296, 0x1000000000000000000);
            lemma_div_trunc_bound(dpitch_raw as int, 4294967296, 0x1000000000000000000);
        }

        let px: i64 = clamp_i128(
            (self.camera.position.x as i128) + dx + ddx,
            -POS_LIMIT,
            POS_LIMIT,
        );
        let py: i64 = clamp_i128(
            (self.camera.position.y as i128) + dy + ddy,
            -POS_LIMIT,
            POS_LIMIT,
        );
        let pz: i64 = clamp_i128(
            (self.camera.position.z as i128) + dz + ddz,
            -POS_LIMIT,
            POS_LIMIT,
        );

        let yaw_wide: i128 = (self.camera.yaw as i128) + dyaw;
        let new_yaw: i64 = norm_deg(yaw_wide as i64);
        let pitch_wide: i128 = (self.camera.pitch as i128) - dpitch;
        let new_pitch: i64 = clamp_i128(pitch_wide, -PITCH_LIMIT, PITCH_LIMIT);

        self.camera.position.x = px;
        self.camera.position.y = py;
        self.camera.position.z = pz;
        self.camera.yaw = new_yaw;
        self.camera.pitch = new_pitch;
        self.rotate_horizontal = 0;
        self.rotate_vertical = 0;
        self.scroll = 0;
    }

    /// Pass an accepted window resize on to the projection.
    pub fn resize(&mut self, width: u32, height: u32)
        requires
            old(self).wf(),
            width > 0,
            height > 0,
        ensures
            *final(self) == (CameraController {
                projection: Projection { width, height, ..old(self).projection },
                ..*old(self)
            }),
            final(self).wf(),
    {
        self.projection.resize(width, height);
    }
}

/// Clamp a stored input delta into the accepted range.
fn clamp_delta(v: i64) -> (r: i64)
    ensures
        r == clamp_spec(v as int, -DELTA_MAX as int, DELTA_MAX as int),
        -DELTA_MAX <= r <= DELTA_MAX,
{
    if v < -DELTA_MAX {
        -DELTA_MAX
    } else if v > DELTA_MAX {
        DELTA_MAX
    } else {
        v
    }
}

/// However a controller is updated, the resulting pitch never exceeds
/// the clamp bound in absolute value.
pub proof fn lemma_pitch_clamped(c: CameraController, dt: int)
    ensures
        -PITCH_LIMIT <= update_spec(c, dt).camera.pitch <= PITCH_LIMIT,
{
}

/// The controller after a sequence of updates, one elapsed time per
/// update.
pub open spec fn run_updates(c: CameraController, dts: Seq<int>) -> CameraController
    decreases dts.len(),
{
    if dts.len() == 0 {
        c
    } else {
        update_spec(run_updates(c, dts.drop_last()), dts.last())
    }
}

/// Pitch after any sequence of updates never exceeds the clamp bound in
/// absolute value.
pub proof fn lemma_pitch_bounded_over_updates(c: CameraController, dts: Seq<int>)
    requires
        -PITCH_LIMIT <= c.camera.pitch <= PITCH_LIMIT,
    ensures
        -PITCH_LIMIT <= run_updates(c, dts).camera.pitch <= PITCH_LIMIT,
    decreases dts.len(),
{
    if dts.len() > 0 {
        lemma_pitch_clamped(run_updates(c, dts.drop_last()), dts.last());
    }
}

} // verus!
