//! Fixed-point arithmetic with 16 fractional bits.
//!
//! All continuous quantities of the engine (camera position, angles, input
//! deltas, elapsed time) are carried as `i64` values scaled by [`ONE`].
//! Angles are measured in fixed-point degrees, so the cardinal directions
//! are exactly representable. The sine below is the classical rational
//! approximation attributed to Bhaskara; it is exact at multiples of a
//! right angle, which keeps axis-aligned movement exact.

use vstd::prelude::*;
use vstd::arithmetic::div_mod::{
    lemma_div_is_ordered, lemma_div_multiples_vanish, lemma_mod_bound, lemma_mod_multiples_vanish,
};

verus! {

/// The fixed-point unit: 1.0 is represented as `ONE`.
pub const ONE: i64 = 65536;

/// A quarter turn in fixed-point degrees.
pub const DEG_90: i64 = 90 * ONE;

/// A half turn in fixed-point degrees.
pub const DEG_180: i64 = 180 * ONE;

/// Three quarter turns in fixed-point degrees.
pub const DEG_270: i64 = 270 * ONE;

/// A full turn in fixed-point degrees.
pub const DEG_360: i64 = 360 * ONE;

/// Largest angle magnitude the trigonometric entry points accept.
pub const ANGLE_MAX: i64 = 1152921504606846976;

/// A multiple of `DEG_360` larger than `ANGLE_MAX`, used to shift an angle
/// into the non-negative range before reduction.
const TURN_SHIFT: i64 = DEG_360 * 68719476736;

/// Truncated (round towards zero) division, the rounding the executable
/// code uses on signed fixed-point intermediates.
pub open spec fn div_trunc(a: int, d: int) -> int {
    if a >= 0 {
        a / d
    } else {
        -((-a) / d)
    }
}

/// Clamp `v` into `[lo, hi]`.
pub open spec fn clamp_spec(v: int, lo: int, hi: int) -> int {
    if v < lo {
        lo
    } else if v > hi {
        hi
    } else {
        v
    }
}

/// An angle reduced into `[0, DEG_360)`.
pub open spec fn norm360(a: int) -> int {
    a % (DEG_360 as int)
}

/// Bhaskara's sine on the first quadrant, in fixed-point degrees.
/// For `x` in `[0, DEG_90]` this is `sin(x / ONE degrees)` scaled by `ONE`,
/// exact at both endpoints.
pub open spec fn sin_quadrant_spec(x: int) -> int {
    let p = x * ((DEG_180 as int) - x);
    (4 * p * (ONE as int)) / (40500 * (ONE as int) * (ONE as int) - p)
}

/// Fixed-point sine of an angle in fixed-point degrees, by quadrant
/// reduction onto [`sin_quadrant_spec`].
pub open spec fn sin_deg(a: int) -> int {
    let n = norm360(a);
    if n <= DEG_90 as int {
        sin_quadrant_spec(n)
    } else if n <= DEG_180 as int {
        sin_quadrant_spec((DEG_180 as int) - n)
    } else if n <= DEG_270 as int {
        -sin_quadrant_spec(n - (DEG_180 as int))
    } else {
        -sin_quadrant_spec((DEG_360 as int) - n)
    }
}

/// Fixed-point cosine, as the sine shifted by a quarter turn.
pub open spec fn cos_deg(a: int) -> int {
    sin_deg(a + (DEG_90 as int))
}

/// Reduce an angle into `[0, DEG_360)`.
pub fn norm_deg(a: i64) -> (r: i64)
    requires
        -ANGLE_MAX <= a <= ANGLE_MAX,
    ensures
        r == norm360(a as int),
        0 <= r < DEG_360,
{
    let shifted: i64 = a + TURN_SHIFT;
    let r: i64 = shifted % DEG_360;
    proof {
        lemma_mod_multiples_vanish(68719476736, a as int, DEG_360 as int);
        lemma_mod_bound(a as int, DEG_360 as int);
    }
    r
}

/// Bhaskara's sine on the first quadrant.
fn sin_quadrant(x: i64) -> (r: i64)
    requires
        0 <= x <= DEG_90,
    ensures
        r == sin_quadrant_spec(x as int),
        0 <= r <= ONE,
{
    let xi: i128 = x as i128;
    let diff: i128 = (DEG_180 as i128) - xi;
    assert(0 <= xi * diff <= 8100 * 65536 * 65536) by (nonlinear_arith)
        requires
            0 <= xi <= 5898240,
            diff == 11796480 - xi,
    {
        assert((xi - 5898240) * (xi - 5898240) >= 0);
    }
    let p: i128 = xi * diff;
    let num: i128 = 4 * p * 65536;
    let den: i128 = 40500 * 65536 * 65536 - p;
    let r: i128 = num / den;
    proof {
        assert(num <= (ONE as int) * den);
        lemma_div_is_ordered(0, num as int, den as int);
        lemma_div_is_ordered(num as int, (ONE as int) * den, den as int);
        lemma_div_multiples_vanish(ONE as int, den as int);
        assert(den * (ONE as int) == (ONE as int) * den);
    }
    r as i64
}

/// Fixed-point sine of an angle in fixed-point degrees.
pub fn sin_fp(deg: i64) -> (r: i64)
    requires
        -ANGLE_MAX <= deg <= ANGLE_MAX,
    ensures
        r == sin_deg(deg as int),
        -ONE <= r <= ONE,
{
    let n: i64 = norm_deg(deg);
    if n <= DEG_90 {
        sin_quadrant(n)
    } else if n <= DEG_180 {
        sin_quadrant(DEG_180 - n)
    } else if n <= DEG_270 {
        let s: i64 = sin_quadrant(n - DEG_180);
        -s
    } else {
        let s: i64 = sin_quadrant(DEG_360 - n);
        -s
    }
}

/// Fixed-point cosine of an angle in fixed-point degrees.
pub fn cos_fp(deg: i64) -> (r: i64)
    requires
        -ANGLE_MAX <= deg <= ANGLE_MAX - DEG_90,
    ensures
        r == cos_deg(deg as int),
        -ONE <= r <= ONE,
{
    sin_fp(deg + DEG_90)
}

/// Truncated division of a wide intermediate by a positive divisor.
pub fn div_trunc_i128(a: i128, d: i128) -> (r: i128)
    requires
        0 < d,
        -170141183460469231731687303715884105727 <= a,
    ensures
        r == div_trunc(a as int, d as int),
        a >= 0 ==> 0 <= r <= a,
        a < 0 ==> a <= r <= 0,
{
    if a >= 0 {
        let q: i128 = a / d;
        proof {
            lemma_div_is_ordered(0, a as int, d as int);
            lemma_div_is_ordered_by_one(a as int, d as int);
        }
        q
    } else {
        let neg: i128 = -a;
        let q: i128 = neg / d;
        proof {
            lemma_div_is_ordered(0, neg as int, d as int);
            lemma_div_is_ordered_by_one(neg as int, d as int);
        }
        -q
    }
}

/// A non-negative value does not grow under division by a positive divisor.
proof fn lemma_div_is_ordered_by_one(x: int, d: int)
    requires
        0 <= x,
        0 < d,
    ensures
        x / d <= x,
{
    if d == 1 {
        lemma_div_multiples_vanish(x, 1);
    } else {
        vstd::arithmetic::div_mod::lemma_div_is_ordered_by_denominator(x, 1, d);
        lemma_div_multiples_vanish(x, 1);
    }
}

/// A bound on the magnitude of the dividend carries to the quotient.
pub proof fn lemma_div_trunc_bound(a: int, d: int, m: int)
    requires
        0 < d,
        0 <= m,
        -m <= a <= m,
    ensures
        -(m / d) <= div_trunc(a, d) <= m / d,
{
    lemma_div_multiples_vanish(0, d);
    if a >= 0 {
        lemma_div_is_ordered(0, a, d);
        lemma_div_is_ordered(a, m, d);
    } else {
        lemma_div_is_ordered(0, -a, d);
        lemma_div_is_ordered(-a, m, d);
    }
}

/// Clamp a wide intermediate into an `i64` interval.
pub fn clamp_i128(v: i128, lo: i64, hi: i64) -> (r: i64)
    requires
        lo <= hi,
    ensures
        r == clamp_spec(v as int, lo as int, hi as int),
{
    if v < lo as i128 {
        lo
    } else if v > hi as i128 {
        hi
    } else {
        v as i64
    }
}

} // verus!
