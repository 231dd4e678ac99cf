//! Fixed-point trigonometry in milliradians.
//!
//! Angles are `i64` milliradians; sine and cosine return values scaled by
//! [`crate::fixed::SCALE`]. The functions evaluate a rational approximation
//! of the sine on a half turn and extend it by symmetry; the spec functions
//! here state the returned value exactly, so every caller's contract is
//! exact over them. The approximation is exact at the quarter-turn grid:
//! `sin(0) == 0`, `sin(HALF_PI_MRAD) == SCALE`, `cos(0) == SCALE`.

use vstd::prelude::*;
use crate::fixed::SCALE;

verus! {

/// Half turn, milliradians.
pub const PI_MRAD: i64 = 3142;

/// Quarter turn, milliradians.
pub const HALF_PI_MRAD: i64 = 1571;

/// Full turn, milliradians; angles are reduced modulo this.
pub const TURN_MRAD: i64 = 6284;

/// An angle reduced to `[0, TURN_MRAD)`; `%` here is the Euclidean
/// remainder, so the result is non-negative for negative angles too.
pub open spec fn norm_turn_spec(a: int) -> int {
    a % (TURN_MRAD as int)
}

/// Sine on the first half turn, `x` in `[0, PI_MRAD]`, scaled by `SCALE`:
/// a rational approximation `16000 * x * (PI - x) / (5 * PI^2 - 4 * x * (PI - x))`.
pub open spec fn sin_half_turn(x: int) -> int {
    (16000 * (x * (3142 - x))) / (49360820 - 4 * (x * (3142 - x)))
}

/// Sine of a reduced angle in `[0, TURN_MRAD)`: the half-turn
/// approximation, mirrored and negated on the second half turn.
pub open spec fn sin_norm_spec(x: int) -> int {
    if x < 3142 {
        sin_half_turn(x)
    } else {
        -sin_half_turn(x - 3142)
    }
}

/// Sine of any angle, scaled by `SCALE`.
pub open spec fn sin_mrad(a: int) -> int {
    sin_norm_spec(norm_turn_spec(a))
}

/// Cosine of any angle, scaled by `SCALE`: the sine a quarter turn ahead.
pub open spec fn cos_mrad(a: int) -> int {
    sin_mrad(a + 1571)
}

/// Reduce an angle to `[0, TURN_MRAD)`.
pub fn norm_turn(a: i64) -> (r: i64)
    requires
        i64::MIN < a,
    ensures
        r == norm_turn_spec(a as int),
        0 <= r < TURN_MRAD,
{
    if a >= 0 {
        let r = ((a as u64) % (TURN_MRAD as u64)) as i64;
        proof {
            vstd::arithmetic::div_mod::lemma_mod_division_less_than_divisor(a as int, 6284);
        }
        r
    } else {
        let m = (((-a) as u64) % (TURN_MRAD as u64)) as i64;
        proof {
            vstd::arithmetic::div_mod::lemma_mod_division_less_than_divisor(-(a as int), 6284);
        }
        if m == 0 {
            proof {
                let k = -(a as int) / 6284;
                vstd::arithmetic::div_mod::lemma_fundamental_div_mod(-(a as int), 6284);
                vstd::arithmetic::div_mod::lemma_fundamental_div_mod_converse_mod(
                    a as int, 6284, -k, 0);
            }
            0
        } else {
            proof {
                let k = -(a as int) / 6284;
                vstd::arithmetic::div_mod::lemma_fundamental_div_mod(-(a as int), 6284);
                vstd::arithmetic::div_mod::lemma_fundamental_div_mod_converse_mod(
                    a as int, 6284, -k - 1, 6284 - m);
            }
            TURN_MRAD - m
        }
    }
}

/// The product `x * (PI_MRAD - x)` stays within the quarter-turn square.
proof fn lemma_arch_bound(x: int)
    requires
        0 <= x <= 3142,
    ensures
        0 <= x * (3142 - x) <= 2468041,
{
    assert(0 <= x * (3142 - x) <= 2468041) by (nonlinear_arith)
        requires
            0 <= x <= 3142,
    {
        assert((x - 1571) * (x - 1571) >= 0);
    }
}

/// The half-turn sine stays within `[0, SCALE]`.
proof fn lemma_sin_half_bounds(x: int)
    requires
        0 <= x <= 3142,
    ensures
        0 <= sin_half_turn(x) <= 1000,
{
    lemma_arch_bound(x);
    let t = x * (3142 - x);
    let num = 16000 * t;
    let den = 49360820 - 4 * t;
    vstd::arithmetic::div_mod::lemma_div_pos_is_pos(num, den);
    vstd::arithmetic::div_mod::lemma_div_is_ordered(num, 1000 * den, den);
    vstd::arithmetic::div_mod::lemma_div_by_multiple(1000, den);
}

/// The sine of any angle stays within `[-SCALE, SCALE]`.
pub proof fn lemma_sin_mrad_bounds(a: int)
    ensures
        -1000 <= sin_mrad(a) <= 1000,
{
    vstd::arithmetic::div_mod::lemma_mod_bound(a, 6284);
    let n = a % 6284;
    if n < 3142 {
        lemma_sin_half_bounds(n);
    } else {
        lemma_sin_half_bounds(n - 3142);
    }
}

/// The cosine of any angle stays within `[-SCALE, SCALE]`.
pub proof fn lemma_cos_mrad_bounds(a: int)
    ensures
        -1000 <= cos_mrad(a) <= 1000,
{
    lemma_sin_mrad_bounds(a + 1571);
}

/// Sine on the first half turn.
fn sin_half(x: i64) -> (r: i64)
    requires
        0 <= x <= 3142,
    ensures
        r == sin_half_turn(x as int),
        0 <= r <= SCALE,
{
    proof {
        lemma_arch_bound(x as int);
    }
    let t = x * (3142 - x);
    let num = 16000 * t;
    let den = 49360820 - 4 * t;
    let r = ((num as u64) / (den as u64)) as i64;
    proof {
        lemma_sin_half_bounds(x as int);
        vstd::arithmetic::div_mod::lemma_div_pos_is_pos(num as int, den as int);
    }
    r
}

/// Sine of a reduced angle.
fn sin_norm(x: i64) -> (r: i64)
    requires
        0 <= x < TURN_MRAD,
    ensures
        r == sin_norm_spec(x as int),
        -SCALE <= r <= SCALE,
{
    if x < 3142 {
        sin_half(x)
    } else {
        let s = sin_half(x - 3142);
        -s
    }
}

/// Sine of any angle in milliradians, scaled by `SCALE`.
pub fn sin_fix(a: i64) -> (r: i64)
    requires
        i64::MIN < a,
    ensures
        r == sin_mrad(a as int),
        -SCALE <= r <= SCALE,
{
    let n = norm_turn(a);
    sin_norm(n)
}

/// Cosine of any angle in milliradians, scaled by `SCALE`.
pub fn cos_fix(a: i64) -> (r: i64)
    requires
        i64::MIN < a,
    ensures
        r == cos_mrad(a as int),
        -SCALE <= r <= SCALE,
{
    let n = norm_turn(a);
    let shifted = if n + HALF_PI_MRAD < TURN_MRAD {
        n + HALF_PI_MRAD
    } else {
        n + HALF_PI_MRAD - TURN_MRAD
    };
    proof {
        vstd::arithmetic::div_mod::lemma_small_mod(1571nat, 6284nat);
        vstd::arithmetic::div_mod::lemma_add_mod_noop(a as int, 1571, 6284);
        if n + 1571 < 6284 {
            vstd::arithmetic::div_mod::lemma_small_mod((n + 1571) as nat, 6284nat);
        } else {
            vstd::arithmetic::div_mod::lemma_fundamental_div_mod_converse_mod(
                n as int + 1571, 6284, 1, n as int + 1571 - 6284);
        }
        assert(shifted == norm_turn_spec(a as int + 1571));
    }
    sin_norm(shifted)
}

/// Largest coordinate difference the arctangent accepts; four times the
/// world coordinate limit, so any difference of two in-bounds positions,
/// and the length of any such difference, fits comfortably.
pub const ATAN_ARG_LIMIT: i64 = 4_000_000_000;

/// Arctangent of `t / SCALE` for `t` in `[0, SCALE]`, in milliradians:
/// the quadratic approximation `(785 * t + 285 * t * (1000 - t) / 1000) / 1000`,
/// exact at both ends (`0` and an eighth of a turn).
pub open spec fn atan_frac_spec(t: int) -> int {
    (785 * t + (285 * (t * (1000 - t))) / 1000) / 1000
}

/// Angle of the point `(ax, ay)` from the positive x axis, for
/// non-negative coordinates, in `[0, HALF_PI_MRAD]`.
pub open spec fn atan2_mag_spec(ay: int, ax: int) -> int {
    if ax >= ay {
        atan_frac_spec((ay * 1000) / ax)
    } else {
        1571 - atan_frac_spec((ax * 1000) / ay)
    }
}

/// Angle of the point `(x, y)` from the positive x axis, in
/// `[-PI_MRAD, PI_MRAD]`; `0` at the origin.
pub open spec fn atan2_mrad(y: int, x: int) -> int {
    if y == 0 && x == 0 {
        0
    } else {
        let m = atan2_mag_spec(vstd::math::abs(y) as int, vstd::math::abs(x) as int);
        if x >= 0 && y >= 0 {
            m
        } else if x < 0 && y >= 0 {
            3142 - m
        } else if x >= 0 {
            -m
        } else {
            m - 3142
        }
    }
}

/// Arctangent of `t / SCALE` on `[0, SCALE]`.
fn atan_frac(t: i64) -> (r: i64)
    requires
        0 <= t <= 1000,
    ensures
        r == atan_frac_spec(t as int),
        0 <= r <= 785,
{
    proof {
        assert(0 <= t * (1000 - t) <= 250000) by (nonlinear_arith)
            requires
                0 <= t <= 1000,
        {
            assert((t - 500) * (t - 500) >= 0);
        }
    }
    let u = t * (1000 - t);
    let v = ((285 * u) as u64 / 1000) as i64;
    proof {
        vstd::arithmetic::div_mod::lemma_div_pos_is_pos(285 * (u as int), 1000);
        crate::fixed::lemma_div_trunc_bounds(285 * (u as int), 1000);
        assert(785000 * t + 285 * (t * (1000 - t)) <= 785000000) by (nonlinear_arith)
            requires
                0 <= t <= 1000,
        {
            assert((1000 - t) * (785000 - 285 * t) >= 0);
        }
    }
    let num = 785 * t + v;
    let r = ((num as u64) / 1000) as i64;
    proof {
        vstd::arithmetic::div_mod::lemma_div_pos_is_pos(num as int, 1000);
        vstd::arithmetic::div_mod::lemma_div_is_ordered(num as int, 785000, 1000);
    }
    r
}

/// Angle of `(ax, ay)` from the positive x axis, non-negative inputs.
fn atan2_mag(ay: i64, ax: i64) -> (r: i64)
    requires
        0 <= ay <= ATAN_ARG_LIMIT,
        0 <= ax <= ATAN_ARG_LIMIT,
        ay > 0 || ax > 0,
    ensures
        r == atan2_mag_spec(ay as int, ax as int),
        0 <= r <= 1571,
{
    if ax >= ay {
        let t = (((ay as u64) * 1000) / (ax as u64)) as i64;
        proof {
            vstd::arithmetic::div_mod::lemma_div_pos_is_pos(ay as int * 1000, ax as int);
            vstd::arithmetic::div_mod::lemma_div_is_ordered(ay as int * 1000,
                1000 * (ax as int), ax as int);
            vstd::arithmetic::div_mod::lemma_div_by_multiple(1000, ax as int);
        }
        atan_frac(t)
    } else {
        let t = (((ax as u64) * 1000) / (ay as u64)) as i64;
        proof {
            vstd::arithmetic::div_mod::lemma_div_pos_is_pos(ax as int * 1000, ay as int);
            vstd::arithmetic::div_mod::lemma_div_is_ordered(ax as int * 1000,
                1000 * (ay as int), ay as int);
            vstd::arithmetic::div_mod::lemma_div_by_multiple(1000, ay as int);
        }
        let a = atan_frac(t);
        HALF_PI_MRAD - a
    }
}

/// Angle of `(x, y)` from the positive x axis, any quadrant.
pub fn atan2_fix(y: i64, x: i64) -> (r: i64)
    requires
        -ATAN_ARG_LIMIT <= y <= ATAN_ARG_LIMIT,
        -ATAN_ARG_LIMIT <= x <= ATAN_ARG_LIMIT,
    ensures
        r == atan2_mrad(y as int, x as int),
        -PI_MRAD <= r <= PI_MRAD,
        x >= 0 ==> -HALF_PI_MRAD <= r <= HALF_PI_MRAD,
{
    if y == 0 && x == 0 {
        return 0;
    }
    let ay = if y >= 0 { y } else { -y };
    let ax = if x >= 0 { x } else { -x };
    let m = atan2_mag(ay, ax);
    if x >= 0 && y >= 0 {
        m
    } else if x < 0 && y >= 0 {
        PI_MRAD - m
    } else if x >= 0 {
        -m
    } else {
        m - PI_MRAD
    }
}

} // verus!
