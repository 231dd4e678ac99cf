//! Camera placement: spherical offset, occlusion probe, look-at.
//!
//! Each frame the camera's desired position is the player's position plus
//! an offset computed from the orbit parameters by spherical coordinates.
//! A probe is cast from the player toward that position; if it reports a
//! hit the camera stands at the hit point instead, so world geometry never
//! comes between camera and player. Either way the camera is oriented to
//! look at the player with the world's vertical axis up.
//!
//! The spatial query itself belongs to the surrounding physics engine: the
//! library builds the [`CastRequest`], the engine answers with an optional
//! hit point, and [`place_camera`] is verified for every possible answer.

use vstd::prelude::*;
use crate::facing::Orientation;
use crate::fixed::{
    div_fix, div_trunc, isqrt64, isqrt_of, lemma_isqrt_of, mul_fix, mul_fix_spec,
    Vec3Fix, COORD_LIMIT, SCALE,
};
use crate::orbit::{OrbitState, MAX_DISTANCE};
use crate::trig::{atan2_fix, atan2_mrad, cos_fix, cos_mrad, sin_fix, sin_mrad, ATAN_ARG_LIMIT};

verus! {

/// Radius of the sphere swept toward the desired camera position.
pub const PROBE_RADIUS: i64 = 500;

/// Farthest the occlusion probe travels, fixed-point world units.
pub const CAST_MAX_DISTANCE: i64 = 15000;

/// Collision layers that count as occluders; the player's own body and
/// trigger volumes are excluded.
pub const OCCLUDER_MASK: u32 = 0b1011;

/// The horizontal-by-vertical component of the spherical offset:
/// `distance * cos(yaw) * cos(pitch)`.
pub open spec fn offset_x_spec(o: OrbitState) -> int {
    mul_fix_spec(o.distance as int, mul_fix_spec(cos_mrad(o.yaw as int), cos_mrad(o.pitch as int)))
}

/// The vertical component of the spherical offset: `distance * sin(pitch)`.
pub open spec fn offset_y_spec(o: OrbitState) -> int {
    mul_fix_spec(o.distance as int, sin_mrad(o.pitch as int))
}

/// The remaining horizontal component of the spherical offset:
/// `distance * sin(yaw) * cos(pitch)`.
pub open spec fn offset_z_spec(o: OrbitState) -> int {
    mul_fix_spec(o.distance as int, mul_fix_spec(sin_mrad(o.yaw as int), cos_mrad(o.pitch as int)))
}

/// The spherical offset from the player to the unoccluded camera.
pub open spec fn offset_vec_spec(o: OrbitState) -> Vec3Fix {
    Vec3Fix {
        x: offset_x_spec(o) as i64,
        y: offset_y_spec(o) as i64,
        z: offset_z_spec(o) as i64,
    }
}

/// For well-formed orbit parameters the spherical offset never exceeds the
/// orbit distance in any coordinate, so the fixed-point components of
/// [`offset_vec_spec`] carry the exact mathematical values.
pub proof fn lemma_offset_within_distance(o: OrbitState)
    requires
        o.wf(),
    ensures
        -MAX_DISTANCE <= offset_x_spec(o) <= MAX_DISTANCE,
        -MAX_DISTANCE <= offset_y_spec(o) <= MAX_DISTANCE,
        -MAX_DISTANCE <= offset_z_spec(o) <= MAX_DISTANCE,
        offset_vec_spec(o).x == offset_x_spec(o),
        offset_vec_spec(o).y == offset_y_spec(o),
        offset_vec_spec(o).z == offset_z_spec(o),
{
    let cy = cos_mrad(o.yaw as int);
    let sy = sin_mrad(o.yaw as int);
    let cp = cos_mrad(o.pitch as int);
    let sp = sin_mrad(o.pitch as int);
    crate::trig::lemma_cos_mrad_bounds(o.yaw as int);
    crate::trig::lemma_sin_mrad_bounds(o.yaw as int);
    crate::trig::lemma_cos_mrad_bounds(o.pitch as int);
    crate::trig::lemma_sin_mrad_bounds(o.pitch as int);
    assert(-1_000_000 <= cy * cp <= 1_000_000) by (nonlinear_arith)
        requires
            -1000 <= cy <= 1000,
            -1000 <= cp <= 1000,
    ;
    assert(-1_000_000 <= sy * cp <= 1_000_000) by (nonlinear_arith)
        requires
            -1000 <= sy <= 1000,
            -1000 <= cp <= 1000,
    ;
    crate::fixed::lemma_div_trunc_bounds(cy * cp, SCALE as int);
    crate::fixed::lemma_div_trunc_bounds(sy * cp, SCALE as int);
    let cc = mul_fix_spec(cy, cp);
    let sc = mul_fix_spec(sy, cp);
    assert(-15_000_000 <= o.distance * cc <= 15_000_000) by (nonlinear_arith)
        requires
            0 <= o.distance <= 15000,
            -1000 <= cc <= 1000,
    ;
    assert(-15_000_000 <= o.distance * sc <= 15_000_000) by (nonlinear_arith)
        requires
            0 <= o.distance <= 15000,
            -1000 <= sc <= 1000,
    ;
    assert(-15_000_000 <= o.distance * sp <= 15_000_000) by (nonlinear_arith)
        requires
            0 <= o.distance <= 15000,
            -1000 <= sp <= 1000,
    ;
    crate::fixed::lemma_div_trunc_bounds(o.distance * cc, SCALE as int);
    crate::fixed::lemma_div_trunc_bounds(o.distance * sc, SCALE as int);
    crate::fixed::lemma_div_trunc_bounds(o.distance * sp, SCALE as int);
}

/// Compute the spherical offset from the orbit parameters.
pub fn camera_offset(orbit: &OrbitState) -> (v: Vec3Fix)
    requires
        orbit.wf(),
    ensures
        v == offset_vec_spec(*orbit),
        v.bounded(MAX_DISTANCE as int),
{
    let cy = cos_fix(orbit.yaw);
    let sy = sin_fix(orbit.yaw);
    let cp = cos_fix(orbit.pitch);
    let sp = sin_fix(orbit.pitch);
    proof {
        assert(-1_000_000 <= (cy as int) * (cp as int) <= 1_000_000) by (nonlinear_arith)
            requires
                -1000 <= cy <= 1000,
                -1000 <= cp <= 1000,
        ;
        assert(-1_000_000 <= (sy as int) * (cp as int) <= 1_000_000) by (nonlinear_arith)
            requires
                -1000 <= sy <= 1000,
                -1000 <= cp <= 1000,
        ;
    }
    let cc = mul_fix(cy, cp);
    let sc = mul_fix(sy, cp);
    proof {
        assert(-15_000_000 <= (orbit.distance as int) * (cc as int) <= 15_000_000)
            by (nonlinear_arith)
            requires
                0 <= orbit.distance <= 15000,
                -1000 <= cc <= 1000,
        ;
        assert(-15_000_000 <= (orbit.distance as int) * (sc as int) <= 15_000_000)
            by (nonlinear_arith)
            requires
                0 <= orbit.distance <= 15000,
                -1000 <= sc <= 1000,
        ;
        assert(-15_000_000 <= (orbit.distance as int) * (sp as int) <= 15_000_000)
            by (nonlinear_arith)
            requires
                0 <= orbit.distance <= 15000,
                -1000 <= sp <= 1000,
        ;
    }
    let x = mul_fix(orbit.distance, cc);
    let y = mul_fix(orbit.distance, sp);
    let z = mul_fix(orbit.distance, sc);
    Vec3Fix { x, y, z }
}

/// Squared length of a vector.
pub open spec fn norm2_spec(v: Vec3Fix) -> int {
    v.x * v.x + v.y * v.y + v.z * v.z
}

/// The unit vector along `v`, scaled by `SCALE`: each component divided by
/// the vector's integer length.
pub open spec fn unit_toward_spec(v: Vec3Fix) -> Vec3Fix {
    let len = isqrt_of(norm2_spec(v));
    Vec3Fix {
        x: div_trunc(v.x * (SCALE as int), len) as i64,
        y: div_trunc(v.y * (SCALE as int), len) as i64,
        z: div_trunc(v.z * (SCALE as int), len) as i64,
    }
}

/// Everything the spatial query needs for the occlusion probe: sweep a
/// sphere of `radius` from `origin` along `direction` (unit, scaled by
/// `SCALE`) for at most `max_distance`, against the layers of `mask`,
/// ignoring the player's own body.
#[derive(Clone, Copy, Debug, PartialEq, Eq, Structural)]
pub struct CastRequest {
    pub origin: Vec3Fix,
    pub direction: Vec3Fix,
    pub max_distance: i64,
    pub radius: i64,
    pub mask: u32,
}

/// The occlusion probe a frame asks for: from the player along the
/// spherical offset, or nothing when the offset has no direction
/// (degenerate geometry, prevented by the distance clamp but checked
/// defensively): the probe is then skipped.
pub open spec fn cast_request_spec(o: OrbitState, p: Vec3Fix) -> Option<CastRequest> {
    if offset_vec_spec(o) == (Vec3Fix { x: 0, y: 0, z: 0 }) {
        None
    } else {
        Some(
            CastRequest {
                origin: p,
                direction: unit_toward_spec(offset_vec_spec(o)),
                max_distance: CAST_MAX_DISTANCE,
                radius: PROBE_RADIUS,
                mask: OCCLUDER_MASK,
            },
        )
    }
}

/// Build the occlusion probe for the current frame.
pub fn build_cast_request(orbit: &OrbitState, player_pos: Vec3Fix) -> (req: Option<CastRequest>)
    requires
        orbit.wf(),
        player_pos.bounded(COORD_LIMIT as int),
    ensures
        req == cast_request_spec(*orbit, player_pos),
{
    let off = camera_offset(orbit);
    if off.x == 0 && off.y == 0 && off.z == 0 {
        return None;
    }
    proof {
        assert(0 <= (off.x as int) * (off.x as int) <= 225_000_000) by (nonlinear_arith)
            requires
                -15000 <= off.x <= 15000,
        ;
        assert(0 <= (off.y as int) * (off.y as int) <= 225_000_000) by (nonlinear_arith)
            requires
                -15000 <= off.y <= 15000,
        ;
        assert(0 <= (off.z as int) * (off.z as int) <= 225_000_000) by (nonlinear_arith)
            requires
                -15000 <= off.z <= 15000,
        ;
        assert(off.x != 0 ==> (off.x as int) * (off.x as int) >= 1) by (nonlinear_arith);
        assert(off.y != 0 ==> (off.y as int) * (off.y as int) >= 1) by (nonlinear_arith);
        assert(off.z != 0 ==> (off.z as int) * (off.z as int) >= 1) by (nonlinear_arith);
    }
    let xx = off.x * off.x;
    let yy = off.y * off.y;
    let zz = off.z * off.z;
    let n2: u64 = (xx as u64) + (yy as u64) + (zz as u64);
    let len64 = isqrt64(n2);
    proof {
        assert(n2 >= 1);
        assert(len64 >= 1) by (nonlinear_arith)
            requires
                n2 >= 1,
                n2 < (len64 + 1) * (len64 + 1),
        ;
        assert(len64 * len64 <= n2 <= 675_000_000);
        assert(len64 <= 26000) by (nonlinear_arith)
            requires
                len64 * len64 <= 675_000_000,
        ;
    }
    let len = len64 as i64;
    proof {
        lemma_isqrt_of(len as int, n2 as int);
        assert(n2 as int == norm2_spec(off));
    }
    let dir = Vec3Fix {
        x: div_fix(off.x * SCALE, len),
        y: div_fix(off.y * SCALE, len),
        z: div_fix(off.z * SCALE, len),
    };
    Some(
        CastRequest {
            origin: player_pos,
            direction: dir,
            max_distance: CAST_MAX_DISTANCE,
            radius: PROBE_RADIUS,
            mask: OCCLUDER_MASK,
        },
    )
}

/// The yaw a camera at `cam` gets when made to look at `target` with the
/// world's vertical axis up.
pub open spec fn look_yaw_spec(cam: Vec3Fix, target: Vec3Fix) -> int {
    atan2_mrad(cam.x - target.x, cam.z - target.z)
}

/// Squared horizontal distance between camera and target.
pub open spec fn horiz2_spec(cam: Vec3Fix, target: Vec3Fix) -> int {
    (target.x - cam.x) * (target.x - cam.x) + (target.z - cam.z) * (target.z - cam.z)
}

/// The pitch a camera at `cam` gets when made to look at `target`.
pub open spec fn look_pitch_spec(cam: Vec3Fix, target: Vec3Fix) -> int {
    atan2_mrad(target.y - cam.y, isqrt_of(horiz2_spec(cam, target)))
}

/// The full look-at orientation: yaw and pitch toward the target, no roll.
pub open spec fn look_at_spec(cam: Vec3Fix, target: Vec3Fix) -> Orientation {
    Orientation {
        yaw: look_yaw_spec(cam, target) as i64,
        pitch: look_pitch_spec(cam, target) as i64,
        roll: 0,
    }
}

/// Orient a camera at `cam` to look at `target`, vertical axis up.
pub fn look_orientation(cam: Vec3Fix, target: Vec3Fix) -> (ori: Orientation)
    requires
        cam.bounded(COORD_LIMIT as int + MAX_DISTANCE as int),
        target.bounded(COORD_LIMIT as int),
    ensures
        ori == look_at_spec(cam, target),
        -3142 <= ori.yaw <= 3142,
        -1571 <= ori.pitch <= 1571,
        ori.roll == 0,
{
    let yaw = atan2_fix(cam.x - target.x, cam.z - target.z);
    let dx = target.x - cam.x;
    let dy = target.y - cam.y;
    let dz = target.z - cam.z;
    let axd = if dx >= 0 { dx } else { -dx };
    let azd = if dz >= 0 { dz } else { -dz };
    proof {
        assert((axd as int) * (axd as int) == (dx as int) * (dx as int)) by (nonlinear_arith)
            requires
                axd == dx || axd == -(dx as int),
        ;
        assert((azd as int) * (azd as int) == (dz as int) * (dz as int)) by (nonlinear_arith)
            requires
                azd == dz || azd == -(dz as int),
        ;
        assert(0 <= (axd as int) * (axd as int) <= 4_500_000_000_000_000_000) by (nonlinear_arith)
            requires
                0 <= axd <= 2_100_000_000,
        ;
        assert(0 <= (azd as int) * (azd as int) <= 4_500_000_000_000_000_000) by (nonlinear_arith)
            requires
                0 <= azd <= 2_100_000_000,
        ;
    }
    let h2: u64 = (axd as u64) * (axd as u64) + (azd as u64) * (azd as u64);
    let h64 = isqrt64(h2);
    proof {
        assert(h64 <= 3_000_000_000) by (nonlinear_arith)
            requires
                h64 * h64 <= 9_000_000_000_000_000_000u64,
        ;
    }
    let h = h64 as i64;
    proof {
        lemma_isqrt_of(h as int, h2 as int);
        assert(h2 as int == horiz2_spec(cam, target));
    }
    let pitch = atan2_fix(dy, h);
    proof {
        assert(-1571 <= pitch <= 1571);
    }
    Orientation { yaw, pitch, roll: 0 }
}

/// The camera's transform for one frame: where it stands and how it looks.
#[derive(Clone, Copy, Debug, PartialEq, Eq, Structural)]
pub struct CameraPose {
    pub position: Vec3Fix,
    pub orientation: Orientation,
}

/// The camera entity's whole state: its transform for the frame and the
/// persistent orbit parameters it is driven by.
#[derive(Clone, Copy, Debug, PartialEq, Eq, Structural)]
pub struct CameraRig {
    pub pose: CameraPose,
    pub orbit: OrbitState,
}

/// The player's position plus the spherical offset.
pub open spec fn desired_position_spec(o: OrbitState, p: Vec3Fix) -> Vec3Fix {
    let off = offset_vec_spec(o);
    Vec3Fix {
        x: (p.x + off.x) as i64,
        y: (p.y + off.y) as i64,
        z: (p.z + off.z) as i64,
    }
}

/// Where the camera ends up: at the reported hit point when the probe hit
/// something, at the desired position otherwise.
pub open spec fn resolved_position_spec(o: OrbitState, p: Vec3Fix, hit: Option<Vec3Fix>) -> Vec3Fix {
    match hit {
        Some(q) => q,
        None => desired_position_spec(o, p),
    }
}

/// The unoccluded camera position for the current orbit parameters.
pub fn desired_position(orbit: &OrbitState, player_pos: Vec3Fix) -> (r: Vec3Fix)
    requires
        orbit.wf(),
        player_pos.bounded(COORD_LIMIT as int),
    ensures
        r == desired_position_spec(*orbit, player_pos),
        r.bounded(COORD_LIMIT as int + MAX_DISTANCE as int),
{
    let off = camera_offset(orbit);
    player_pos.add(off)
}

/// Place and orient the camera for one frame, given the occlusion probe's
/// answer. A reported hit always wins over the unoccluded position; either
/// way the camera looks at the player.
pub fn place_camera(orbit: &OrbitState, player_pos: Vec3Fix, hit: Option<Vec3Fix>) -> (pose:
    CameraPose)
    requires
        orbit.wf(),
        player_pos.bounded(COORD_LIMIT as int),
        hit matches Some(q) ==> q.bounded(COORD_LIMIT as int),
    ensures
        pose.position == resolved_position_spec(*orbit, player_pos, hit),
        hit matches Some(q) ==> pose.position == q,
        hit is None ==> pose.position == desired_position_spec(*orbit, player_pos),
        pose.orientation == look_at_spec(pose.position, player_pos),
{
    let position = match hit {
        Some(q) => q,
        None => desired_position(orbit, player_pos),
    };
    let orientation = look_orientation(position, player_pos);
    CameraPose { position, orientation }
}

} // verus!
