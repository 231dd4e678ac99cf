//! Orientations and the facing-sync rule.
//!
//! An orientation is a yaw/pitch/roll Euler triple in milliradians, yaw
//! applied first about the vertical axis. The facing-sync rule gives the
//! player the camera's horizontal facing every frame: the camera's yaw
//! with pitch and roll exactly zero, so the body never tilts with the
//! camera.

use vstd::prelude::*;

verus! {

/// A yaw/pitch/roll Euler orientation, milliradians, yaw applied first
/// about the vertical (up) axis.
#[derive(Clone, Copy, Debug, PartialEq, Eq, Structural)]
pub struct Orientation {
    pub yaw: i64,
    pub pitch: i64,
    pub roll: i64,
}

impl Orientation {
    /// A level orientation with the given yaw.
    pub open spec fn level_spec(yaw: int) -> Orientation {
        Orientation { yaw: yaw as i64, pitch: 0, roll: 0 }
    }

    /// The identity orientation.
    pub fn identity() -> (r: Orientation)
        ensures
            r == Orientation::level_spec(0),
    {
        Orientation { yaw: 0, pitch: 0, roll: 0 }
    }
}

/// The player orientation the facing-sync rule produces from a camera
/// orientation: the camera's yaw, pitch and roll exactly zero.
pub open spec fn facing_spec(camera: Orientation) -> Orientation {
    Orientation::level_spec(camera.yaw as int)
}

/// Extract the camera's horizontal facing: the orientation a body gets so
/// that it faces where the camera looks, without tilting.
pub fn horizontal_facing(camera: &Orientation) -> (r: Orientation)
    ensures
        r == facing_spec(*camera),
        r.yaw == camera.yaw,
        r.pitch == 0,
        r.roll == 0,
{
    Orientation { yaw: camera.yaw, pitch: 0, roll: 0 }
}

} // verus!
