use orbitcam::camera::{CameraPose, CameraRig};
use orbitcam::facing::{horizontal_facing, Orientation};
use orbitcam::fixed::Vec3Fix;
use orbitcam::input::InputIntent;
use orbitcam::orbit::OrbitState;
use orbitcam::respawn::{respawn_frame, Player, PointerMode};

fn vec3(x: i64, y: i64, z: i64) -> Vec3Fix {
    Vec3Fix { x, y, z }
}

fn intent(reset: bool, toggle_pointer: bool) -> InputIntent {
    InputIntent { motion_x: 0, motion_y: 0, scroll: 0, reset, toggle_pointer }
}

fn wandering_player() -> Player {
    Player {
        position: vec3(5000, 3000, 2000),
        velocity: vec3(1000, 1000, 1000),
        orientation: Orientation { yaw: 42, pitch: 0, roll: 0 },
    }
}

fn wandering_camera() -> CameraRig {
    CameraRig {
        pose: CameraPose {
            position: vec3(9, 9, 9),
            orientation: Orientation { yaw: 7, pitch: 8, roll: 9 },
        },
        orbit: OrbitState { yaw: 100, pitch: 200, distance: 9000 },
    }
}

#[test]
fn reset_restores_all_five_values_together() {
    let mut player = Some(wandering_player());
    let mut camera = Some(wandering_camera());
    let mut mode = PointerMode::Locked;
    respawn_frame(&mut player, &mut camera, &mut mode, &intent(true, false));
    let p = player.unwrap();
    assert_eq!(p.position, vec3(0, 8000, 0));
    assert_eq!(p.velocity, vec3(0, 0, 0));
    assert_eq!(p.orientation, Orientation { yaw: 42, pitch: 0, roll: 0 });
    let c = camera.unwrap();
    assert_eq!(c.pose.position, vec3(0, 5000, 10000));
    assert_eq!(c.pose.orientation, Orientation { yaw: 7, pitch: 8, roll: 9 });
    assert_eq!(c.orbit, OrbitState { yaw: 1530, pitch: 220, distance: 10000 });
    assert_eq!(mode, PointerMode::Locked);
}

#[test]
fn without_a_reset_edge_nothing_moves() {
    let mut player = Some(wandering_player());
    let mut camera = Some(wandering_camera());
    let mut mode = PointerMode::Locked;
    respawn_frame(&mut player, &mut camera, &mut mode, &intent(false, false));
    assert_eq!(player.unwrap(), wandering_player());
    assert_eq!(camera.unwrap(), wandering_camera());
    assert_eq!(mode, PointerMode::Locked);
}

#[test]
fn toggle_releases_then_recaptures_the_pointer() {
    let mut player = Some(wandering_player());
    let mut camera = Some(wandering_camera());
    let mut mode = PointerMode::Locked;
    respawn_frame(&mut player, &mut camera, &mut mode, &intent(false, true));
    assert_eq!(mode, PointerMode::Released);
    respawn_frame(&mut player, &mut camera, &mut mode, &intent(false, true));
    assert_eq!(mode, PointerMode::Locked);
}

#[test]
fn missing_entities_make_the_frame_a_no_op() {
    let mut player: Option<Player> = None;
    let mut camera = Some(wandering_camera());
    let mut mode = PointerMode::Locked;
    respawn_frame(&mut player, &mut camera, &mut mode, &intent(true, true));
    assert!(player.is_none());
    assert_eq!(camera.unwrap(), wandering_camera());
    assert_eq!(mode, PointerMode::Locked);

    let mut player = Some(wandering_player());
    let mut camera: Option<CameraRig> = None;
    respawn_frame(&mut player, &mut camera, &mut mode, &intent(true, true));
    assert_eq!(player.unwrap(), wandering_player());
    assert!(camera.is_none());
    assert_eq!(mode, PointerMode::Locked);
}

#[test]
fn facing_keeps_yaw_and_levels_the_body() {
    let cam = Orientation { yaw: 1895, pitch: -237, roll: 5 };
    let body = horizontal_facing(&cam);
    assert_eq!(body, Orientation { yaw: 1895, pitch: 0, roll: 0 });
}

#[test]
fn spawned_player_rests_at_the_spawn_point() {
    let p = Player::at_spawn();
    assert_eq!(p.position, vec3(0, 8000, 0));
    assert_eq!(p.velocity, vec3(0, 0, 0));
}
