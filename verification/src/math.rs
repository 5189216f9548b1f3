//! Scalar arithmetic shared by the whole simulation.
//!
//! Every quantity of the simulation is an integer:
//!
//! * a length is counted in millionths of a world unit ([`UNIT`] per unit),
//! * a span of time is counted in milliseconds,
//! * a speed is counted in millionths of a unit per millisecond, which is the
//!   same as thousandths of a unit per second ([`SPEED_UNIT`] per unit/second),
//! * a dimensionless fraction is counted in millionths ([`UNIT`] is one).
//!
//! With these scales `speed * dt` is a length and `acceleration * dt` is a
//! speed without any rounding, so integration steps are exact.

use vstd::prelude::*;

verus! {

/// Millionths in one whole: the scale of lengths and of fractions.
pub const UNIT: i64 = 1_000_000;

/// Thousandths in one whole: the scale of speeds.
pub const SPEED_UNIT: i64 = 1_000;

/// Milliseconds in one second.
pub const MILLIS_PER_SECOND: i64 = 1_000;

/// `v` can be held in an `i64`.
pub open spec fn fits_i64(v: int) -> bool {
    i64::MIN <= v <= i64::MAX
}

/// `v` can be held in an `i32`.
pub open spec fn fits_i32(v: int) -> bool {
    i32::MIN <= v <= i32::MAX
}

/// The smaller of two integers.
pub open spec fn min_int(a: int, b: int) -> int {
    if a <= b { a } else { b }
}

/// The larger of two integers.
pub open spec fn max_int(a: int, b: int) -> int {
    if a >= b { a } else { b }
}

/// `v` brought into `[low, high]`; `low` wins where the bounds cross.
pub open spec fn clamp_int(v: int, low: int, high: int) -> int {
    max_int(low, min_int(v, high))
}

/// The absolute value of an integer.
pub open spec fn abs_int(v: int) -> int {
    if v >= 0 { v } else { -v }
}

/// `a * b / d`, rounded toward negative infinity.
pub open spec fn mul_div_spec(a: int, b: int, d: int) -> int {
    (a * b) / d
}

/// The point a fraction `val` (in millionths) of the way from `a` to `b`,
/// rounded toward negative infinity. `val` may lie outside `[0, UNIT]`: the
/// line is then extended.
pub open spec fn lerp_spec(a: int, b: int, val: int) -> int {
    a + mul_div_spec(b - a, val, UNIT as int)
}

/// `r` is the integer square root of `n`: the largest `r` with `r * r <= n`.
pub open spec fn is_isqrt(n: int, r: int) -> bool {
    0 <= r && r * r <= n < (r + 1) * (r + 1)
}

/// The integer square root of `n`, for `n >= 0`.
pub open spec fn sqrt_floor(n: int) -> int {
    choose|r: int| is_isqrt(n, r)
}

/// A number has at most one integer square root, so any `r` that passes
/// [`is_isqrt`] is [`sqrt_floor`].
pub proof fn lemma_sqrt_floor_unique(n: int, r: int)
    requires
        is_isqrt(n, r),
    ensures
        sqrt_floor(n) == r,
{
    let s = sqrt_floor(n);
    assert(is_isqrt(n, s));
    if s < r {
        assert((s + 1) * (s + 1) <= r * r) by (nonlinear_arith)
            requires 0 <= s, s + 1 <= r;
    }
    if r < s {
        assert((r + 1) * (r + 1) <= s * s) by (nonlinear_arith)
            requires 0 <= r, r + 1 <= s;
    }
}

/// Every number from zero on has an integer square root, so [`sqrt_floor`]
/// is one.
pub proof fn lemma_sqrt_floor_exists(n: int)
    requires
        n >= 0,
    ensures
        is_isqrt(n, sqrt_floor(n)),
    decreases n,
{
    if n == 0 {
        assert(is_isqrt(0, 0));
    } else {
        lemma_sqrt_floor_exists(n - 1);
        let r = sqrt_floor(n - 1);
        if (r + 1) * (r + 1) <= n {
            assert((r + 1) * (r + 1) < (r + 2) * (r + 2)) by (nonlinear_arith)
                requires r >= 0;
            assert(is_isqrt(n, r + 1));
        } else {
            assert(is_isqrt(n, r));
        }
    }
}

/// The integer square root grows with its argument.
pub proof fn lemma_sqrt_floor_monotone(a: int, b: int)
    requires
        0 <= a <= b,
    ensures
        0 <= sqrt_floor(a) <= sqrt_floor(b),
{
    lemma_sqrt_floor_exists(a);
    lemma_sqrt_floor_exists(b);
    let ra = sqrt_floor(a);
    let rb = sqrt_floor(b);
    if rb < ra {
        assert((rb + 1) * (rb + 1) <= ra * ra) by (nonlinear_arith)
            requires 0 <= rb, rb + 1 <= ra;
    }
}

/// The product of two 64-bit integers fits in 128 bits.
pub proof fn lemma_product_fits_i128(a: int, b: int)
    requires
        -0x1_0000_0000_0000_0000 < a < 0x1_0000_0000_0000_0000,
        -0x8000_0000_0000_0000 <= b <= 0x8000_0000_0000_0000,
    ensures
        i128::MIN < a * b < i128::MAX,
{
    assert(-0xffff_ffff_ffff_ffff * 0x8000_0000_0000_0000 <= a * b
        <= 0xffff_ffff_ffff_ffff * 0x8000_0000_0000_0000) by (nonlinear_arith)
        requires
            -0xffff_ffff_ffff_ffff <= a <= 0xffff_ffff_ffff_ffff,
            -0x8000_0000_0000_0000 <= b <= 0x8000_0000_0000_0000,
    ;
}

/// Floor division is monotone and bounded by its dividend's magnitude.
pub proof fn lemma_div_floor_bounds(p: int, d: int)
    requires
        d > 0,
    ensures
        p >= 0 ==> 0 <= p / d <= p,
        p < 0 ==> p <= p / d < 0,
{
    assert(p >= 0 ==> 0 <= p / d <= p) by (nonlinear_arith)
        requires d > 0;
    assert(p < 0 ==> p <= p / d < 0) by (nonlinear_arith)
        requires d > 0;
}

/// `a * b / d` rounded toward negative infinity, with the product taken in
/// 128 bits so that only the quotient has to fit.
pub fn mul_div(a: i64, b: i64, d: i64) -> (r: i64)
    requires
        d > 0,
        fits_i64(mul_div_spec(a as int, b as int, d as int)),
    ensures
        r == mul_div_spec(a as int, b as int, d as int),
{
    proof {
        lemma_product_fits_i128(a as int, b as int);
    }
    let product: i128 = (a as i128) * (b as i128);
    div_floor(product, d as i128) as i64
}

/// `a / d` rounded toward negative infinity.
pub fn div_floor(a: i128, d: i128) -> (r: i128)
    requires
        d > 0,
    ensures
        r == (a as int) / (d as int),
{
    proof {
        lemma_div_floor_bounds(a as int, d as int);
    }
    match a.checked_div_euclid(d) {
        Some(q) => q,
        None => 0,
    }
}

/// Linear interpolation from `a` to `b` by the fraction `val`, in millionths.
pub fn lerp(a: i64, b: i64, val: i64) -> (r: i64)
    requires
        fits_i64(lerp_spec(a as int, b as int, val as int)),
    ensures
        r == lerp_spec(a as int, b as int, val as int),
{
    let span: i128 = (b as i128) - (a as i128);
    proof {
        lemma_product_fits_i128(span as int, val as int);
        lemma_div_floor_bounds(span * val, UNIT as int);
    }
    let part: i128 = div_floor(span * (val as i128), UNIT as i128);
    ((a as i128) + part) as i64
}

/// The integer square root of `n`, found by bisection.
pub fn isqrt(n: u64) -> (r: u64)
    ensures
        is_isqrt(n as int, r as int),
        r == sqrt_floor(n as int),
{
    let mut low: u64 = 0;
    let mut high: u64 = 0x1_0000_0000;
    while high - low > 1
        invariant
            low < high <= 0x1_0000_0000,
            low * low <= n < high * high,
        decreases high - low,
    {
        let mid: u64 = low + (high - low) / 2;
        assert(mid * mid <= 0xffff_ffff * 0xffff_ffff) by (nonlinear_arith)
            requires mid <= 0xffff_ffff;
        if mid * mid <= n {
            low = mid;
        } else {
            high = mid;
        }
    }
    proof {
        lemma_sqrt_floor_unique(n as int, low as int);
    }
    low
}

} // verus!
