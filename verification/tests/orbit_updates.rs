use orbitcam::input::{gather_intent, InputIntent, MotionDelta};
use orbitcam::orbit::OrbitState;

fn intent(motion_x: i64, motion_y: i64, scroll: i64) -> InputIntent {
    InputIntent { motion_x, motion_y, scroll, reset: false, toggle_pointer: false }
}

#[test]
fn motion_turns_the_orbit() {
    let mut orbit = OrbitState { yaw: 0, pitch: 0, distance: 5000 };
    // 250 pixels at 2 mrad per pixel: half a radian.
    orbit.apply_motion(250_000, -250_000, 2, 2);
    assert_eq!(orbit.yaw, 500);
    assert_eq!(orbit.pitch, 6284 - 500);
    assert_eq!(orbit.distance, 5000);
}

#[test]
fn motion_wraps_past_a_full_turn() {
    let mut orbit = OrbitState { yaw: 6000, pitch: 0, distance: 5000 };
    orbit.apply_motion(250_000, 0, 2, 2);
    assert_eq!(orbit.yaw, 6500 - 6284);
}

#[test]
fn zoom_moves_the_distance() {
    let mut orbit = OrbitState { yaw: 0, pitch: 0, distance: 9000 };
    // One scroll line for a tenth of a second at zoom speed 2.
    orbit.apply_zoom(1000, 2000, 100);
    assert_eq!(orbit.distance, 8800);
}

#[test]
fn zoom_clamps_at_both_ends() {
    let mut orbit = OrbitState { yaw: 0, pitch: 0, distance: 9000 };
    orbit.apply_zoom(-1_000_000, 2000, 1000);
    assert_eq!(orbit.distance, 15000);
    orbit.apply_zoom(1_000_000, 2000, 1000);
    assert_eq!(orbit.distance, 2000);
}

#[test]
fn zoom_stays_clamped_over_a_sequence() {
    let mut orbit = OrbitState { yaw: 0, pitch: 0, distance: 9000 };
    let deltas: [i64; 7] = [1_000_000, -1_000_000, 500, -500, 999_999, 1, -42];
    for d in deltas {
        orbit.apply_zoom(d, 2000, 1000);
        assert!(orbit.distance >= 2000);
        assert!(orbit.distance <= 15000);
    }
}

#[test]
fn frame_update_uses_the_standard_constants() {
    let mut orbit = OrbitState { yaw: 0, pitch: 0, distance: 9000 };
    orbit.update(&intent(250_000, 0, 1000), 100);
    assert_eq!(orbit.yaw, 500);
    assert_eq!(orbit.pitch, 0);
    assert_eq!(orbit.distance, 8800);
}

#[test]
fn intent_sums_the_frame_events() {
    let motions = vec![
        MotionDelta { dx: 100, dy: -200 },
        MotionDelta { dx: 50, dy: 75 },
    ];
    let scrolls: Vec<i64> = vec![10, -4];
    let intent = gather_intent(&motions, &scrolls, true, false);
    assert_eq!(intent.motion_x, 150);
    assert_eq!(intent.motion_y, -125);
    assert_eq!(intent.scroll, 6);
    assert!(intent.reset);
    assert!(!intent.toggle_pointer);
}

#[test]
fn intent_of_an_empty_frame_is_zero() {
    let motions: Vec<MotionDelta> = Vec::new();
    let scrolls: Vec<i64> = Vec::new();
    let intent = gather_intent(&motions, &scrolls, false, true);
    assert_eq!(intent.motion_x, 0);
    assert_eq!(intent.motion_y, 0);
    assert_eq!(intent.scroll, 0);
    assert!(!intent.reset);
    assert!(intent.toggle_pointer);
}

#[test]
fn default_orbit_state() {
    let orbit = OrbitState::default_state();
    assert_eq!(orbit.yaw, 1530);
    assert_eq!(orbit.pitch, 220);
    assert_eq!(orbit.distance, 10000);
}
