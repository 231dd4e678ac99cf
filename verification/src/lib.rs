//! Third-person orbit camera core.
//!
//! The library drives an orbit camera around a player body: it reduces raw
//! per-frame device deltas to an input intent, updates the camera's polar
//! parameters (yaw, pitch, distance), places the camera around the player
//! while letting an occlusion probe pull it in front of intervening
//! geometry, keeps the player's facing in step with the camera's horizontal
//! orientation, and resets player and camera on command.
//!
//! All quantities are fixed-point integers: lengths in thousandths of a
//! world unit, angles in milliradians. The surrounding engine converts at
//! the boundary and performs the actual spatial query, input reading and
//! rendering; every rule in here is verified.

pub mod camera;
pub mod facing;
pub mod fixed;
pub mod frame;
pub mod input;
pub mod orbit;
pub mod respawn;
pub mod trig;
