//! The camera's persistent polar parameters and their update rules.
//!
//! Yaw and pitch accumulate pointer motion scaled by a sensitivity and are
//! stored reduced to one turn (the reduction is invisible to the
//! trigonometry, as [`lemma_norm_preserves_trig`] states). The distance
//! follows the scroll wheel and is clamped to
//! `[MIN_DISTANCE, MAX_DISTANCE]` after every update.

use vstd::prelude::*;
use crate::fixed::{clamp_fix, clamp_spec, mul_fix, mul_fix_spec};
use crate::input::InputIntent;
use crate::trig::{cos_mrad, norm_turn, norm_turn_spec, sin_mrad, TURN_MRAD};

verus! {

/// Closest the camera may zoom in, fixed-point world units.
pub const MIN_DISTANCE: i64 = 2000;

/// Farthest the camera may zoom out, fixed-point world units.
pub const MAX_DISTANCE: i64 = 15000;

/// Distance the camera starts at and returns to on reset.
pub const DEFAULT_DISTANCE: i64 = 10000;

/// Yaw the camera returns to on reset, milliradians.
pub const DEFAULT_YAW: i64 = 1530;

/// Pitch the camera returns to on reset, milliradians.
pub const DEFAULT_PITCH: i64 = 220;

/// Pointer sensitivity, milliradians per pixel of pointer motion.
pub const MOUSE_SENSITIVITY: i64 = 2;

/// Zoom speed, fixed-point world units per scroll line and second.
pub const ZOOM_SPEED: i64 = 2000;

/// Largest sensitivity or zoom-speed factor accepted.
pub const FACTOR_LIMIT: i64 = 1_000_000;

/// Largest summed per-frame delta accepted (fixed-point).
pub const DELTA_LIMIT: i64 = 1_000_000_000;

/// Largest frame delta accepted, fixed-point seconds.
pub const FRAME_DELTA_LIMIT: i64 = 1_000_000;

/// The camera's polar parameters around the player.
#[derive(Clone, Copy, Debug, PartialEq, Eq, Structural)]
pub struct OrbitState {
    /// Horizontal angle, milliradians, reduced to `[0, TURN_MRAD)`.
    pub yaw: i64,
    /// Vertical angle, milliradians, reduced to `[0, TURN_MRAD)`.
    pub pitch: i64,
    /// Distance from the player, fixed-point units, within
    /// `[MIN_DISTANCE, MAX_DISTANCE]`.
    pub distance: i64,
}

/// The distance after one scroll update: zoomed by `dy * zoom * dt` and
/// clamped into the allowed band.
pub open spec fn zoom_step_spec(d: int, dy: int, zoom: int, dt: int) -> int {
    clamp_spec(d - mul_fix_spec(mul_fix_spec(dy, zoom), dt), MIN_DISTANCE as int,
        MAX_DISTANCE as int)
}

/// The distance after a whole sequence of scroll updates.
pub open spec fn zoom_fold_spec(d: int, deltas: Seq<int>, zoom: int, dt: int) -> int
    decreases deltas.len(),
{
    if deltas.len() == 0 {
        d
    } else {
        zoom_fold_spec(zoom_step_spec(d, deltas[0], zoom, dt), deltas.skip(1), zoom, dt)
    }
}

impl OrbitState {
    /// Angles reduced to one turn and the distance within its band.
    pub open spec fn wf(self) -> bool {
        &&& 0 <= self.yaw < TURN_MRAD
        &&& 0 <= self.pitch < TURN_MRAD
        &&& MIN_DISTANCE <= self.distance <= MAX_DISTANCE
    }

    /// The state the camera starts at and returns to on reset.
    pub open spec fn default_spec() -> OrbitState {
        OrbitState { yaw: DEFAULT_YAW, pitch: DEFAULT_PITCH, distance: DEFAULT_DISTANCE }
    }

    /// The state the camera starts at and returns to on reset.
    pub fn default_state() -> (r: OrbitState)
        ensures
            r == OrbitState::default_spec(),
            r.wf(),
    {
        OrbitState { yaw: DEFAULT_YAW, pitch: DEFAULT_PITCH, distance: DEFAULT_DISTANCE }
    }

    /// Turn by a pointer delta: yaw grows by `dx * sx`, pitch by
    /// `dy * sy`, both then reduced to one turn. The distance is untouched.
    pub fn apply_motion(&mut self, dx: i64, dy: i64, sx: i64, sy: i64)
        requires
            old(self).wf(),
            -DELTA_LIMIT <= dx <= DELTA_LIMIT,
            -DELTA_LIMIT <= dy <= DELTA_LIMIT,
            0 <= sx <= FACTOR_LIMIT,
            0 <= sy <= FACTOR_LIMIT,
        ensures
            final(self).yaw == norm_turn_spec(old(self).yaw + mul_fix_spec(dx as int, sx as int)),
            final(self).pitch == norm_turn_spec(
                old(self).pitch + mul_fix_spec(dy as int, sy as int)),
            final(self).distance == old(self).distance,
            final(self).wf(),
    {
        proof {
            assert(-1_000_000_000_000_000 <= (dx as int) * (sx as int)
                <= 1_000_000_000_000_000) by (nonlinear_arith)
                requires
                    -DELTA_LIMIT <= dx <= DELTA_LIMIT,
                    0 <= sx <= FACTOR_LIMIT,
            ;
            assert(-1_000_000_000_000_000 <= (dy as int) * (sy as int)
                <= 1_000_000_000_000_000) by (nonlinear_arith)
                requires
                    -DELTA_LIMIT <= dy <= DELTA_LIMIT,
                    0 <= sy <= FACTOR_LIMIT,
            ;
        }
        let turn_x = mul_fix(dx, sx);
        let turn_y = mul_fix(dy, sy);
        self.yaw = norm_turn(self.yaw + turn_x);
        self.pitch = norm_turn(self.pitch + turn_y);
    }

    /// Zoom by a scroll delta: the distance shrinks by
    /// `dy * zoom_speed * dt` and is clamped into
    /// `[MIN_DISTANCE, MAX_DISTANCE]`. The angles are untouched.
    pub fn apply_zoom(&mut self, dy: i64, zoom_speed: i64, dt: i64)
        requires
            old(self).wf(),
            -DELTA_LIMIT <= dy <= DELTA_LIMIT,
            0 <= zoom_speed <= FACTOR_LIMIT,
            0 <= dt <= FRAME_DELTA_LIMIT,
        ensures
            final(self).distance == zoom_step_spec(old(self).distance as int, dy as int,
                zoom_speed as int, dt as int),
            final(self).yaw == old(self).yaw,
            final(self).pitch == old(self).pitch,
            final(self).wf(),
    {
        proof {
            assert(-1_000_000_000_000_000 <= (dy as int) * (zoom_speed as int)
                <= 1_000_000_000_000_000) by (nonlinear_arith)
                requires
                    -DELTA_LIMIT <= dy <= DELTA_LIMIT,
                    0 <= zoom_speed <= FACTOR_LIMIT,
            ;
        }
        let rate = mul_fix(dy, zoom_speed);
        proof {
            assert(-1_000_000_000_000_000_000 <= (rate as int) * (dt as int)
                <= 1_000_000_000_000_000_000) by (nonlinear_arith)
                requires
                    -1_000_000_000_000 <= rate <= 1_000_000_000_000,
                    0 <= dt <= FRAME_DELTA_LIMIT,
            ;
        }
        let step = mul_fix(rate, dt);
        self.distance = clamp_fix(self.distance - step, MIN_DISTANCE, MAX_DISTANCE);
    }

    /// The orbit parameters after one frame's update from the reduced
    /// input intent, with the standard sensitivity and zoom constants.
    pub open spec fn updated_spec(self, intent: InputIntent, dt: int) -> OrbitState {
        OrbitState {
            yaw: norm_turn_spec(
                self.yaw + mul_fix_spec(intent.motion_x as int, MOUSE_SENSITIVITY as int)) as i64,
            pitch: norm_turn_spec(
                self.pitch + mul_fix_spec(intent.motion_y as int, MOUSE_SENSITIVITY as int)) as i64,
            distance: zoom_step_spec(self.distance as int, intent.scroll as int, ZOOM_SPEED as int,
                dt) as i64,
        }
    }

    /// One frame's orbit update from the reduced input intent, with the
    /// standard sensitivity and zoom constants.
    pub fn update(&mut self, intent: &InputIntent, dt: i64)
        requires
            old(self).wf(),
            -DELTA_LIMIT <= intent.motion_x <= DELTA_LIMIT,
            -DELTA_LIMIT <= intent.motion_y <= DELTA_LIMIT,
            -DELTA_LIMIT <= intent.scroll <= DELTA_LIMIT,
            0 <= dt <= FRAME_DELTA_LIMIT,
        ensures
            final(self).yaw == norm_turn_spec(
                old(self).yaw + mul_fix_spec(intent.motion_x as int, MOUSE_SENSITIVITY as int)),
            final(self).pitch == norm_turn_spec(
                old(self).pitch + mul_fix_spec(intent.motion_y as int, MOUSE_SENSITIVITY as int)),
            final(self).distance == zoom_step_spec(old(self).distance as int, intent.scroll as int,
                ZOOM_SPEED as int, dt as int),
            *final(self) == old(self).updated_spec(*intent, dt as int),
            final(self).wf(),
    {
        self.apply_motion(intent.motion_x, intent.motion_y, MOUSE_SENSITIVITY, MOUSE_SENSITIVITY);
        self.apply_zoom(intent.scroll, ZOOM_SPEED, dt);
    }
}

/// However the distance starts and whatever the scroll deltas are, after
/// any non-empty sequence of zoom updates it lies within
/// `[MIN_DISTANCE, MAX_DISTANCE]` — and stays there if it started there.
pub proof fn lemma_distance_stays_clamped(d: int, deltas: Seq<int>, zoom: int, dt: int)
    requires
        deltas.len() > 0 || MIN_DISTANCE <= d <= MAX_DISTANCE,
    ensures
        MIN_DISTANCE <= zoom_fold_spec(d, deltas, zoom, dt) <= MAX_DISTANCE,
    decreases deltas.len(),
{
    if deltas.len() > 0 {
        lemma_distance_stays_clamped(zoom_step_spec(d, deltas[0], zoom, dt), deltas.skip(1), zoom,
            dt);
    }
}

/// Reducing an angle to one turn changes neither its sine nor its cosine:
/// the stored, reduced yaw and pitch are trigonometrically the same as the
/// unbounded accumulated angles.
pub proof fn lemma_norm_preserves_trig(a: int)
    ensures
        sin_mrad(norm_turn_spec(a)) == sin_mrad(a),
        cos_mrad(norm_turn_spec(a)) == cos_mrad(a),
{
    vstd::arithmetic::div_mod::lemma_mod_twice(a, 6284);
    vstd::arithmetic::div_mod::lemma_small_mod(1571nat, 6284nat);
    vstd::arithmetic::div_mod::lemma_add_mod_noop(a, 1571, 6284);
    vstd::arithmetic::div_mod::lemma_add_mod_noop(a % 6284, 1571, 6284);
}

} // verus!
