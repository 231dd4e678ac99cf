//! The per-frame camera pipeline.
//!
//! Each frame runs in two verified halves around the one step only the
//! physics engine can take. [`camera_frame_begin`] feeds the frame's input
//! intent into the orbit parameters and hands back the occlusion probe to
//! cast; the surrounding engine performs the cast against its world
//! snapshot; [`camera_frame_finish`] then places and orients the camera
//! from the probe's answer and gives the player the camera's horizontal
//! facing. Both halves are no-ops while either the player or the camera
//! entity is missing, so startup ordering never faults.

use vstd::prelude::*;
use crate::camera::{
    cast_request_spec, look_at_spec, place_camera, resolved_position_spec, build_cast_request,
    CameraPose, CameraRig, CastRequest,
};
use crate::facing::{facing_spec, horizontal_facing};
use crate::fixed::{Vec3Fix, COORD_LIMIT};
use crate::input::InputIntent;
use crate::orbit::{DELTA_LIMIT, FRAME_DELTA_LIMIT};
use crate::respawn::Player;

verus! {

/// First half of a camera frame: consume the input intent into the orbit
/// parameters and return the occlusion probe to cast, if any. The pose is
/// left as it was; nothing happens while either entity is missing.
pub fn camera_frame_begin(
    camera: &mut Option<CameraRig>,
    player: &Option<Player>,
    intent: &InputIntent,
    dt: i64,
) -> (req: Option<CastRequest>)
    requires
        (*old(camera)) matches Some(c) ==> c.orbit.wf(),
        (*player) matches Some(p) ==> p.wf(),
        -DELTA_LIMIT <= intent.motion_x <= DELTA_LIMIT,
        -DELTA_LIMIT <= intent.motion_y <= DELTA_LIMIT,
        -DELTA_LIMIT <= intent.scroll <= DELTA_LIMIT,
        0 <= dt <= FRAME_DELTA_LIMIT,
    ensures
        (*old(camera)) is None || (*player) is None ==> *final(camera) == *old(camera) && req
            is None,
        (*old(camera)) is Some && (*player) is Some ==> {
            let c0 = (*old(camera))->0;
            let orbit1 = c0.orbit.updated_spec(*intent, dt as int);
            &&& *final(camera) == Some(CameraRig { pose: c0.pose, orbit: orbit1 })
            &&& orbit1.wf()
            &&& req == cast_request_spec(orbit1, (*player)->0.position)
        },
{
    match &mut *camera {
        Some(c) => {
            match player {
                Some(p) => {
                    c.orbit.update(intent, dt);
                    build_cast_request(&c.orbit, p.position)
                },
                None => None,
            }
        },
        None => None,
    }
}

/// Second half of a camera frame, after the occlusion probe has answered:
/// the camera moves to the hit point when there is one and to the
/// unoccluded desired position otherwise, turns to look at the player,
/// and the player's body takes the camera's horizontal facing. Nothing
/// happens while either entity is missing.
pub fn camera_frame_finish(
    camera: &mut Option<CameraRig>,
    player: &mut Option<Player>,
    hit: Option<Vec3Fix>,
)
    requires
        (*old(camera)) matches Some(c) ==> c.orbit.wf(),
        (*old(player)) matches Some(p) ==> p.wf(),
        hit matches Some(q) ==> q.bounded(COORD_LIMIT as int),
    ensures
        (*old(camera)) is None || (*old(player)) is None ==> *final(camera) == *old(camera)
            && *final(player) == *old(player),
        (*old(camera)) is Some && (*old(player)) is Some ==> {
            let c0 = (*old(camera))->0;
            let p0 = (*old(player))->0;
            let pos = resolved_position_spec(c0.orbit, p0.position, hit);
            let ori = look_at_spec(pos, p0.position);
            &&& *final(camera) == Some(
                CameraRig { pose: CameraPose { position: pos, orientation: ori }, orbit: c0.orbit },
            )
            &&& *final(player) == Some(
                Player {
                    position: p0.position,
                    velocity: p0.velocity,
                    orientation: facing_spec(ori),
                },
            )
        },
{
    match &mut *camera {
        Some(c) => {
            match &mut *player {
                Some(p) => {
                    let pose = place_camera(&c.orbit, p.position, hit);
                    c.pose = pose;
                    p.orientation = horizontal_facing(&pose.orientation);
                },
                None => {},
            }
        },
        None => {},
    }
}

} // verus!
