//! Fixed-point scalars and vectors.
//!
//! A scalar is an `i64` holding a quantity times [`SCALE`]: one thousandth
//! of a world unit, of a radian, of a pixel. Products of two scalars are
//! divided by `SCALE` again; that division truncates toward zero, as the
//! spec function [`div_trunc`] states.

use vstd::prelude::*;

verus! {

/// Fixed-point unit: stored values are the real quantity times this.
pub const SCALE: i64 = 1000;

/// Largest magnitude a world coordinate may take, in fixed-point units.
/// Sums and differences of two coordinates then stay well inside `i64`.
pub const COORD_LIMIT: i64 = 1_000_000_000;

/// Division truncating toward zero, the rounding of the executable `/`.
/// (The spec-level `/` rounds toward negative infinity on negative
/// dividends; the two agree on non-negative ones.)
pub open spec fn div_trunc(p: int, q: int) -> int {
    if p >= 0 {
        p / q
    } else {
        -((-p) / q)
    }
}

/// Fixed-point product of two scalars: `a * b / SCALE`, truncated.
pub open spec fn mul_fix_spec(a: int, b: int) -> int {
    div_trunc(a * b, SCALE as int)
}

/// Quotient of non-negative machine integers.
fn div_nonneg(p: i64, q: i64) -> (r: i64)
    requires
        0 <= p,
        0 < q,
    ensures
        r == p as int / q as int,
        0 <= r <= p,
{
    let r: u64 = (p as u64) / (q as u64);
    r as i64
}

/// Quotient truncated toward zero, for a positive divisor.
pub fn div_fix(p: i64, q: i64) -> (r: i64)
    requires
        i64::MIN < p,
        0 < q,
    ensures
        r == div_trunc(p as int, q as int),
        -p <= r <= p || p <= r <= -p,
{
    if p >= 0 {
        div_nonneg(p, q)
    } else {
        let m = div_nonneg(-p, q);
        -m
    }
}

/// Fixed-point multiply: `a * b / SCALE`, truncated toward zero.
pub fn mul_fix(a: i64, b: i64) -> (r: i64)
    requires
        -i64::MAX <= a * b <= i64::MAX,
    ensures
        r == mul_fix_spec(a as int, b as int),
        -(a * b) <= r * (SCALE as int) <= a * b || a * b <= r * (SCALE as int) <= -(a * b),
{
    let p = a * b;
    let r = div_fix(p, SCALE);
    proof {
        lemma_div_trunc_bounds(p as int, SCALE as int);
    }
    r
}

/// The truncated quotient, scaled back up, never overshoots the dividend.
pub proof fn lemma_div_trunc_bounds(p: int, q: int)
    requires
        0 < q,
    ensures
        p >= 0 ==> 0 <= div_trunc(p, q) * q <= p,
        p < 0 ==> p <= div_trunc(p, q) * q <= 0,
{
    if p >= 0 {
        vstd::arithmetic::div_mod::lemma_fundamental_div_mod(p, q);
        vstd::arithmetic::div_mod::lemma_div_pos_is_pos(p, q);
        vstd::arithmetic::div_mod::lemma_mod_division_less_than_divisor(p, q);
        vstd::arithmetic::mul::lemma_mul_is_commutative(p / q, q);
        assert(q * (p / q) == p - p % q);
    } else {
        vstd::arithmetic::div_mod::lemma_fundamental_div_mod(-p, q);
        vstd::arithmetic::div_mod::lemma_div_pos_is_pos(-p, q);
        vstd::arithmetic::div_mod::lemma_mod_division_less_than_divisor(-p, q);
        vstd::arithmetic::mul::lemma_mul_is_commutative((-p) / q, q);
        vstd::arithmetic::mul::lemma_mul_unary_negation((-p) / q, q);
        assert(q * ((-p) / q) == -p - (-p) % q);
    }
}

/// Clamp a scalar into `[lo, hi]`.
pub open spec fn clamp_spec(v: int, lo: int, hi: int) -> int {
    if v < lo {
        lo
    } else if v > hi {
        hi
    } else {
        v
    }
}

/// Clamp a scalar into `[lo, hi]`.
pub fn clamp_fix(v: i64, lo: i64, hi: i64) -> (r: i64)
    requires
        lo <= hi,
    ensures
        r == clamp_spec(v as int, lo as int, hi as int),
        lo <= r <= hi,
{
    if v < lo {
        lo
    } else if v > hi {
        hi
    } else {
        v
    }
}

/// A point or direction in world space, in fixed-point coordinates.
#[derive(Clone, Copy, Debug, PartialEq, Eq, Structural)]
pub struct Vec3Fix {
    pub x: i64,
    pub y: i64,
    pub z: i64,
}

impl Vec3Fix {
    /// All three coordinates within `limit` in magnitude.
    pub open spec fn bounded(self, limit: int) -> bool {
        &&& -limit <= self.x <= limit
        &&& -limit <= self.y <= limit
        &&& -limit <= self.z <= limit
    }

    /// The origin.
    pub fn zero() -> (r: Vec3Fix)
        ensures
            r == (Vec3Fix { x: 0, y: 0, z: 0 }),
    {
        Vec3Fix { x: 0, y: 0, z: 0 }
    }

    /// Componentwise sum.
    pub fn add(self, other: Vec3Fix) -> (r: Vec3Fix)
        requires
            self.bounded(COORD_LIMIT as int),
            other.bounded(COORD_LIMIT as int),
        ensures
            r.x == self.x + other.x,
            r.y == self.y + other.y,
            r.z == self.z + other.z,
    {
        Vec3Fix { x: self.x + other.x, y: self.y + other.y, z: self.z + other.z }
    }
}

/// `r` is the integer square root of `n`.
pub open spec fn is_isqrt(r: int, n: int) -> bool {
    0 <= r && r * r <= n && n < (r + 1) * (r + 1)
}

/// The integer square root of `n`, as a spec value.
pub open spec fn isqrt_of(n: int) -> int {
    choose|r: int| is_isqrt(r, n)
}

/// Two integer square roots of the same number are equal.
pub proof fn lemma_isqrt_unique(a: int, b: int, n: int)
    requires
        is_isqrt(a, n),
        is_isqrt(b, n),
    ensures
        a == b,
{
    if a < b {
        assert((a + 1) * (a + 1) <= b * b) by (nonlinear_arith)
            requires
                0 <= a,
                a + 1 <= b,
        ;
    }
    if b < a {
        assert((b + 1) * (b + 1) <= a * a) by (nonlinear_arith)
            requires
                0 <= b,
                b + 1 <= a,
        ;
    }
}

/// Any witness of `is_isqrt` is the value `isqrt_of` names.
pub proof fn lemma_isqrt_of(r: int, n: int)
    requires
        is_isqrt(r, n),
    ensures
        isqrt_of(n) == r,
{
    assert(is_isqrt(choose|q: int| is_isqrt(q, n), n));
    lemma_isqrt_unique(isqrt_of(n), r, n);
}

/// Integer square root: the greatest `r` with `r * r <= n`.
pub fn isqrt64(n: u64) -> (r: u64)
    ensures
        r * r <= n < (r + 1) * (r + 1),
{
    let mut lo: u64 = 0;
    let mut hi: u64 = 4_294_967_296;
    proof {
        assert(n < 4_294_967_296u64 * 4_294_967_296u64) by (nonlinear_arith);
    }
    while lo + 1 < hi
        invariant
            lo < hi <= 4_294_967_296,
            lo * lo <= n,
            n < hi * hi,
        decreases hi - lo,
    {
        let mid = lo + (hi - lo) / 2;
        proof {
            assert(mid < 4_294_967_296);
            assert(mid * mid <= 4_294_967_295u64 * 4_294_967_295u64) by (nonlinear_arith)
                requires
                    mid <= 4_294_967_295u64,
            ;
        }
        if mid * mid <= n {
            lo = mid;
        } else {
            hi = mid;
        }
    }
    lo
}

} // verus!
