//! Pointer capture and the respawn rule.
//!
//! A discrete toggle input flips the pointer between captured (gameplay)
//! and released (menu). Independently, a discrete reset input puts the
//! player back at the spawn point with zero velocity and returns the
//! camera to its default placement and orbit — all five values together,
//! or none, and only while both the player and the camera exist.

use vstd::prelude::*;
use crate::camera::{CameraPose, CameraRig};
use crate::facing::Orientation;
use crate::fixed::{Vec3Fix, COORD_LIMIT};
use crate::input::InputIntent;
use crate::orbit::OrbitState;

verus! {

/// The fixed spawn point, `(0, 8, 0)` in world units.
pub open spec fn spawn_point_spec() -> Vec3Fix {
    Vec3Fix { x: 0, y: 8000, z: 0 }
}

/// The fixed spawn point, `(0, 8, 0)` in world units.
pub fn spawn_point() -> (r: Vec3Fix)
    ensures
        r == spawn_point_spec(),
        r.bounded(COORD_LIMIT as int),
{
    Vec3Fix { x: 0, y: 8000, z: 0 }
}

/// Where the camera is put on reset, `(0, 5, 10)` in world units.
pub open spec fn camera_reset_position_spec() -> Vec3Fix {
    Vec3Fix { x: 0, y: 5000, z: 10000 }
}

/// Where the camera is put on reset, `(0, 5, 10)` in world units.
pub fn camera_reset_position() -> (r: Vec3Fix)
    ensures
        r == camera_reset_position_spec(),
        r.bounded(COORD_LIMIT as int),
{
    Vec3Fix { x: 0, y: 5000, z: 10000 }
}

/// The player-controlled body, as far as this core reads and writes it:
/// position, linear velocity, and an orientation that only ever carries
/// yaw.
#[derive(Clone, Copy, Debug, PartialEq, Eq, Structural)]
pub struct Player {
    pub position: Vec3Fix,
    pub velocity: Vec3Fix,
    pub orientation: Orientation,
}

impl Player {
    /// The position stays within the world coordinate limit.
    pub open spec fn wf(self) -> bool {
        self.position.bounded(COORD_LIMIT as int)
    }

    /// A player standing at the spawn point, at rest, facing nowhere in
    /// particular.
    pub fn at_spawn() -> (r: Player)
        ensures
            r.position == spawn_point_spec(),
            r.velocity == (Vec3Fix { x: 0, y: 0, z: 0 }),
            r.orientation == Orientation::level_spec(0),
            r.wf(),
    {
        Player {
            position: spawn_point(),
            velocity: Vec3Fix::zero(),
            orientation: Orientation::identity(),
        }
    }
}

/// Whether the pointer is captured by the window (gameplay) or free
/// (menu).
#[derive(Clone, Copy, Debug, PartialEq, Eq, Structural)]
pub enum PointerMode {
    /// Pointer captured and hidden; gameplay input active.
    Locked,
    /// Pointer free and visible.
    Released,
}

/// The pointer mode after one toggle input.
pub open spec fn toggle_spec(m: PointerMode) -> PointerMode {
    match m {
        PointerMode::Locked => PointerMode::Released,
        PointerMode::Released => PointerMode::Locked,
    }
}

impl PointerMode {
    /// Flip between captured and released.
    pub fn toggled(self) -> (r: PointerMode)
        ensures
            r == toggle_spec(self),
    {
        match self {
            PointerMode::Locked => PointerMode::Released,
            PointerMode::Released => PointerMode::Locked,
        }
    }
}

/// Toggling the pointer twice returns it to where it started.
pub proof fn lemma_toggle_round_trip(m: PointerMode)
    ensures
        toggle_spec(toggle_spec(m)) == m,
{
}

/// What reset does to the player: back to the spawn point, velocity
/// zeroed, orientation untouched.
pub open spec fn reset_player_spec(p: Player) -> Player {
    Player {
        position: spawn_point_spec(),
        velocity: Vec3Fix { x: 0, y: 0, z: 0 },
        orientation: p.orientation,
    }
}

/// What reset does to the camera: back to the default position and the
/// default orbit parameters, orientation untouched.
pub open spec fn reset_camera_spec(c: CameraRig) -> CameraRig {
    CameraRig {
        pose: CameraPose {
            position: camera_reset_position_spec(),
            orientation: c.pose.orientation,
        },
        orbit: OrbitState::default_spec(),
    }
}

/// One frame of the respawn controller. Nothing happens unless both the
/// player and the camera exist. A toggle input flips the pointer mode; a
/// reset input atomically moves the player to the spawn point, zeroes its
/// velocity, and returns the camera position and orbit parameters to
/// their defaults.
pub fn respawn_frame(
    player: &mut Option<Player>,
    camera: &mut Option<CameraRig>,
    mode: &mut PointerMode,
    intent: &InputIntent,
)
    ensures
        (*old(player)) is None || (*old(camera)) is None ==> *final(player) == *old(player)
            && *final(camera) == *old(camera) && *final(mode) == *old(mode),
        (*old(player)) is Some && (*old(camera)) is Some ==> {
            &&& *final(mode) == if intent.toggle_pointer {
                toggle_spec(*old(mode))
            } else {
                *old(mode)
            }
            &&& intent.reset ==> *final(player) == Some(reset_player_spec((*old(player))->0))
                && *final(camera) == Some(reset_camera_spec((*old(camera))->0))
            &&& !intent.reset ==> *final(player) == *old(player) && *final(camera) == *old(camera)
        },
{
    if player.is_some() && camera.is_some() {
        if intent.toggle_pointer {
            *mode = mode.toggled();
        }
        if intent.reset {
            match &mut *player {
                Some(p) => {
                    p.position = spawn_point();
                    p.velocity = Vec3Fix::zero();
                },
                None => {},
            }
            match &mut *camera {
                Some(c) => {
                    c.pose.position = camera_reset_position();
                    c.orbit = OrbitState::default_state();
                },
                None => {},
            }
        }
    }
}

} // verus!
