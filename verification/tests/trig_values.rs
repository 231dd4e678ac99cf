use orbitcam::fixed::isqrt64;
use orbitcam::trig::{atan2_fix, cos_fix, sin_fix};

#[test]
fn sine_quarter_turn_grid() {
    assert_eq!(sin_fix(0), 0);
    assert_eq!(sin_fix(1571), 1000);
    assert_eq!(sin_fix(3142), 0);
    assert_eq!(sin_fix(4713), -1000);
}

#[test]
fn cosine_quarter_turn_grid() {
    assert_eq!(cos_fix(0), 1000);
    assert_eq!(cos_fix(1571), 0);
    assert_eq!(cos_fix(3142), -1000);
}

#[test]
fn sine_wraps_below_zero() {
    assert_eq!(sin_fix(-1571), -1000);
    assert_eq!(sin_fix(-1571 - 6284), -1000);
    assert_eq!(sin_fix(1571 + 6284), 1000);
}

#[test]
fn sine_eighth_turn() {
    assert_eq!(sin_fix(785), 705);
}

#[test]
fn arctangent_axes() {
    assert_eq!(atan2_fix(0, 0), 0);
    assert_eq!(atan2_fix(0, 1000), 0);
    assert_eq!(atan2_fix(1000, 0), 1571);
    assert_eq!(atan2_fix(0, -5), 3142);
    assert_eq!(atan2_fix(-1000, 0), -1571);
}

#[test]
fn arctangent_diagonals() {
    assert_eq!(atan2_fix(1000, 1000), 785);
    assert_eq!(atan2_fix(-3, -3), -2357);
}

#[test]
fn arctangent_half_slope() {
    assert_eq!(atan2_fix(500, 1000), 463);
}

#[test]
fn integer_square_roots() {
    assert_eq!(isqrt64(0), 0);
    assert_eq!(isqrt64(1), 1);
    assert_eq!(isqrt64(24), 4);
    assert_eq!(isqrt64(25), 5);
    assert_eq!(isqrt64(675_000_000), 25980);
}
