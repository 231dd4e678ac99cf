use orbitcam::camera::{
    build_cast_request, camera_offset, desired_position, place_camera, CameraRig,
};
use orbitcam::fixed::Vec3Fix;
use orbitcam::frame::{camera_frame_begin, camera_frame_finish};
use orbitcam::input::InputIntent;
use orbitcam::orbit::OrbitState;
use orbitcam::respawn::Player;
use orbitcam::facing::Orientation;

fn vec3(x: i64, y: i64, z: i64) -> Vec3Fix {
    Vec3Fix { x, y, z }
}

fn idle_intent() -> InputIntent {
    InputIntent { motion_x: 0, motion_y: 0, scroll: 0, reset: false, toggle_pointer: false }
}

#[test]
fn offset_along_the_x_axis() {
    let orbit = OrbitState { yaw: 0, pitch: 0, distance: 5000 };
    assert_eq!(camera_offset(&orbit), vec3(5000, 0, 0));
}

#[test]
fn offset_straight_up() {
    let orbit = OrbitState { yaw: 0, pitch: 1571, distance: 3000 };
    assert_eq!(camera_offset(&orbit), vec3(0, 3000, 0));
}

#[test]
fn desired_position_adds_the_offset() {
    let orbit = OrbitState { yaw: 1571, pitch: 0, distance: 5000 };
    let r = desired_position(&orbit, vec3(100, 200, 300));
    assert_eq!(r, vec3(100, 200, 5300));
}

#[test]
fn empty_world_places_the_camera_at_the_desired_position() {
    // Player at the origin, yaw and pitch zero, distance five units.
    let orbit = OrbitState { yaw: 0, pitch: 0, distance: 5000 };
    let pose = place_camera(&orbit, vec3(0, 0, 0), None);
    assert_eq!(pose.position, vec3(5000, 0, 0));
    assert_eq!(pose.orientation, Orientation { yaw: 1571, pitch: 0, roll: 0 });
}

#[test]
fn a_hit_always_wins() {
    let orbit = OrbitState { yaw: 0, pitch: 0, distance: 5000 };
    let pose = place_camera(&orbit, vec3(0, 0, 0), Some(vec3(1200, 300, -400)));
    assert_eq!(pose.position, vec3(1200, 300, -400));
    assert_eq!(pose.orientation, Orientation { yaw: 1895, pitch: -237, roll: 0 });
}

#[test]
fn cast_request_runs_from_the_player() {
    let orbit = OrbitState { yaw: 0, pitch: 0, distance: 5000 };
    let req = build_cast_request(&orbit, vec3(7, 8, 9)).unwrap();
    assert_eq!(req.origin, vec3(7, 8, 9));
    assert_eq!(req.direction, vec3(1000, 0, 0));
    assert_eq!(req.max_distance, 15000);
    assert_eq!(req.radius, 500);
    assert_eq!(req.mask, 0b1011);
}

#[test]
fn frame_without_camera_is_a_no_op() {
    let mut camera: Option<CameraRig> = None;
    let player = Some(Player::at_spawn());
    let req = camera_frame_begin(&mut camera, &player, &idle_intent(), 16);
    assert!(req.is_none());
    assert!(camera.is_none());
    let mut player = Some(Player::at_spawn());
    let before = player;
    camera_frame_finish(&mut camera, &mut player, None);
    assert!(camera.is_none());
    assert_eq!(player, before);
}

#[test]
fn whole_frame_over_an_empty_world() {
    let pose_before = orbitcam::camera::CameraPose {
        position: vec3(0, 0, 0),
        orientation: Orientation { yaw: 0, pitch: 0, roll: 0 },
    };
    let mut camera = Some(CameraRig {
        pose: pose_before,
        orbit: OrbitState { yaw: 0, pitch: 0, distance: 5000 },
    });
    let mut player = Some(Player {
        position: vec3(0, 0, 0),
        velocity: vec3(0, 0, 0),
        orientation: Orientation { yaw: 0, pitch: 0, roll: 0 },
    });
    let req = camera_frame_begin(&mut camera, &player, &idle_intent(), 16);
    let req = req.expect("an idle frame still probes for occluders");
    assert_eq!(req.direction, vec3(1000, 0, 0));
    camera_frame_finish(&mut camera, &mut player, None);
    let rig = camera.unwrap();
    assert_eq!(rig.orbit, OrbitState { yaw: 0, pitch: 0, distance: 5000 });
    assert_eq!(rig.pose.position, vec3(5000, 0, 0));
    assert_eq!(rig.pose.orientation, Orientation { yaw: 1571, pitch: 0, roll: 0 });
    let p = player.unwrap();
    assert_eq!(p.orientation, Orientation { yaw: 1571, pitch: 0, roll: 0 });
    assert_eq!(p.position, vec3(0, 0, 0));
}

#[test]
fn occluded_frame_pulls_the_camera_in() {
    let mut camera = Some(CameraRig {
        pose: orbitcam::camera::CameraPose {
            position: vec3(0, 0, 0),
            orientation: Orientation { yaw: 0, pitch: 0, roll: 0 },
        },
        orbit: OrbitState { yaw: 0, pitch: 0, distance: 5000 },
    });
    let mut player = Some(Player {
        position: vec3(0, 0, 0),
        velocity: vec3(0, 0, 0),
        orientation: Orientation { yaw: 0, pitch: 0, roll: 0 },
    });
    let _ = camera_frame_begin(&mut camera, &player, &idle_intent(), 16);
    camera_frame_finish(&mut camera, &mut player, Some(vec3(2500, 0, 0)));
    assert_eq!(camera.unwrap().pose.position, vec3(2500, 0, 0));
    // The camera still looks at the player, so the facing is unchanged.
    assert_eq!(player.unwrap().orientation, Orientation { yaw: 1571, pitch: 0, roll: 0 });
}
