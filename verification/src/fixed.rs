//! Fixed-point scalars: lengths in thousandths of a pixel, times in microseconds.
//!
//! Lengths and coordinates are `i32`, and sums that leave that range stop at its
//! ends. Times are `u32`; a countdown stops at zero.

use vstd::prelude::*;

verus! {

/// Length units in one pixel.
pub const UNITS_PER_PIXEL: i32 = 1000;

/// Time units in one second.
pub const MICROS_PER_SECOND: u32 = 1_000_000;

/// `x` held to the closed interval from `lo` to `hi`.
pub open spec fn clamp(x: int, lo: int, hi: int) -> int {
    if x < lo {
        lo
    } else if x > hi {
        hi
    } else {
        x
    }
}

/// `x` held to the range of `i32`.
pub open spec fn saturated(x: int) -> int {
    clamp(x, i32::MIN as int, i32::MAX as int)
}

/// The absolute value of `x`.
pub open spec fn magnitude(x: int) -> int {
    if x < 0 {
        -x
    } else {
        x
    }
}

/// The length `m` in the direction of `d`: `m`, `-m`, or 0 where `d` is 0.
pub open spec fn directed(d: int, m: int) -> int {
    if d < 0 {
        -m
    } else if d > 0 {
        m
    } else {
        0
    }
}

/// `a / b` rounded toward zero, for a positive `b`.
pub open spec fn trunc_div(a: int, b: int) -> int {
    directed(a, magnitude(a) / b)
}

/// `a / b` rounded up, for a positive `b`.
pub open spec fn ceil_div(a: int, b: int) -> int {
    (a + b - 1) / b
}

/// `a / b` rounded down, for a positive `b`.
pub open spec fn floor_div(a: int, b: int) -> int {
    a / b
}

/// `a / b` rounded to the nearest integer, halves away from zero, for a positive `b`.
pub open spec fn round_div(a: int, b: int) -> int {
    directed(a, (2 * magnitude(a) + b) / (2 * b))
}

/// Squares keep the order of natural numbers.
pub proof fn lemma_square_monotonic(a: int, b: int)
    by (nonlinear_arith)
    requires
        0 <= a <= b,
    ensures
        a * a <= b * b,
{
}

/// A product of two natural numbers below bounds is below the product of the bounds.
pub proof fn lemma_product_bound(a: int, b: int, ma: int, mb: int)
    by (nonlinear_arith)
    requires
        0 <= a <= ma,
        0 <= b <= mb,
    ensures
        0 <= a * b <= ma * mb,
{
}

/// The square of a number is the square of its absolute value, and not negative.
pub proof fn lemma_square_of_magnitude(x: int)
    ensures
        magnitude(x) * magnitude(x) == x * x,
        x * x >= 0,
{
    let a = magnitude(x);
    assert(a * a == x * x) by (nonlinear_arith)
        requires
            a == x || a == -x,
    ;
    assert(x * x >= 0) by (nonlinear_arith);
}

/// Narrows `x` to `i32`, stopping at the ends of the range.
pub fn saturate(x: i64) -> (r: i32)
    ensures
        r == saturated(x as int),
{
    if x < i32::MIN as i64 {
        i32::MIN
    } else if x > i32::MAX as i64 {
        i32::MAX
    } else {
        x as i32
    }
}

/// `a + b`, stopping at the ends of the range.
pub fn sat_add(a: i32, b: i32) -> (r: i32)
    ensures
        r == saturated(a + b),
{
    saturate(a as i64 + b as i64)
}

/// `a - b`, stopping at the ends of the range.
pub fn sat_sub(a: i32, b: i32) -> (r: i32)
    ensures
        r == saturated(a - b),
{
    saturate(a as i64 - b as i64)
}

/// Half of `x`, rounded down.
pub fn half(x: i32) -> (r: i32)
    ensures
        r == floor_div(x as int, 2),
{
    let h: i64 = div_floor(x as i64, 2);
    h as i32
}

/// The absolute value of `x`, which always fits the unsigned type.
pub fn unsigned_abs(x: i64) -> (r: u64)
    ensures
        r == magnitude(x as int),
{
    if x >= 0 {
        x as u64
    } else if x == i64::MIN {
        0x8000_0000_0000_0000u64
    } else {
        (-x) as u64
    }
}

/// `a / b` rounded toward zero.
pub fn div_toward_zero(a: i64, b: u32) -> (r: i64)
    requires
        b > 0,
    ensures
        r == trunc_div(a as int, b as int),
{
    let m: u64 = unsigned_abs(a);
    let q: i128 = (m / (b as u64)) as i128;
    proof {
        lemma_quotient_bounds(m as int, b as int);
    }
    if a < 0 {
        (-q) as i64
    } else {
        q as i64
    }
}

/// `a / b` rounded up.
pub fn div_ceil(a: i64, b: u32) -> (r: i64)
    requires
        b > 0,
    ensures
        r == ceil_div(a as int, b as int),
{
    let m: u64 = unsigned_abs(a);
    let d: u64 = b as u64;
    let q: i128 = (m / d) as i128;
    let exact: bool = m % d == 0;
    proof {
        lemma_division_shapes(a as int, b as int);
        lemma_quotient_bounds(m as int, b as int);
    }
    if a <= 0 {
        (-q) as i64
    } else if exact {
        q as i64
    } else {
        (q + 1) as i64
    }
}

/// `a / b` rounded down.
pub fn div_floor(a: i64, b: u32) -> (r: i64)
    requires
        b > 0,
    ensures
        r == floor_div(a as int, b as int),
{
    let m: u64 = unsigned_abs(a);
    let d: u64 = b as u64;
    let q: i128 = (m / d) as i128;
    let exact: bool = m % d == 0;
    proof {
        lemma_division_shapes(a as int, b as int);
        lemma_quotient_bounds(m as int, b as int);
    }
    if a >= 0 {
        q as i64
    } else if exact {
        (-q) as i64
    } else {
        (-q - 1) as i64
    }
}

/// `a / b` rounded to the nearest integer, halves away from zero.
pub fn div_nearest(a: i64, b: u32) -> (r: i64)
    requires
        b > 0,
    ensures
        r == round_div(a as int, b as int),
{
    let m: u128 = unsigned_abs(a) as u128;
    let d: u128 = b as u128;
    proof {
        lemma_rounded_quotient_bounds(m as int, b as int);
    }
    let q: i128 = ((2 * m + d) / (2 * d)) as i128;
    if a < 0 {
        (-q) as i64
    } else {
        q as i64
    }
}

/// The rounded quotient of `m * t` by `b` is no more than `m` where `t` is no
/// more than `b`.
pub proof fn lemma_rounded_quotient_scaled(m: int, t: int, b: int)
    requires
        m >= 0,
        0 <= t <= b,
        b > 0,
    ensures
        0 <= (2 * (m * t) + b) / (2 * b) <= m,
{
    lemma_product_bound(m, t, m, b);
    let p = m * t;
    let n = 2 * p + b;
    let q = n / (2 * b);
    vstd::arithmetic::div_mod::lemma_fundamental_div_mod(n, 2 * b);
    vstd::arithmetic::div_mod::lemma_mod_bound(n, 2 * b);
    vstd::arithmetic::div_mod::lemma_div_pos_is_pos(n, 2 * b);
    assert(q <= m) by (nonlinear_arith)
        requires
            n == (2 * b) * q + n % (2 * b),
            n % (2 * b) >= 0,
            n == 2 * p + b,
            p <= m * b,
            b > 0,
            m >= 0,
            q >= 0,
    ;
}

/// The rounded quotient of a natural number `m` by `b` is no more than `m`.
pub proof fn lemma_rounded_quotient_bounds(m: int, b: int)
    requires
        m >= 0,
        b > 0,
    ensures
        0 <= (2 * m + b) / (2 * b) <= m,
{
    let n = 2 * m + b;
    let q = n / (2 * b);
    vstd::arithmetic::div_mod::lemma_fundamental_div_mod(n, 2 * b);
    vstd::arithmetic::div_mod::lemma_mod_bound(n, 2 * b);
    vstd::arithmetic::div_mod::lemma_div_pos_is_pos(n, 2 * b);
    assert(q <= m) by (nonlinear_arith)
        requires
            n == (2 * b) * q + n % (2 * b),
            n % (2 * b) >= 0,
            n == 2 * m + b,
            b >= 1,
            m >= 0,
            q >= 0,
    ;
}

/// The quotient of a natural number by a positive one is no larger than the
/// number, and smaller where it leaves a remainder.
pub proof fn lemma_quotient_bounds(m: int, b: int)
    requires
        m >= 0,
        b > 0,
    ensures
        0 <= m / b <= m,
        m % b != 0 ==> m / b < m,
{
    let q = m / b;
    let r = m % b;
    vstd::arithmetic::div_mod::lemma_fundamental_div_mod(m, b);
    vstd::arithmetic::div_mod::lemma_mod_bound(m, b);
    vstd::arithmetic::div_mod::lemma_div_pos_is_pos(m, b);
    assert(b * q >= q) by (nonlinear_arith)
        requires
            b >= 1,
            q >= 0,
    ;
}

/// How the roundings of `a / b` follow from the quotient of magnitudes.
pub proof fn lemma_division_shapes(a: int, b: int)
    requires
        b > 0,
    ensures
        a > 0 ==> ceil_div(a, b) == magnitude(a) / b + (if magnitude(a) % b == 0 {
            0int
        } else {
            1int
        }),
        a <= 0 ==> ceil_div(a, b) == -(magnitude(a) / b),
        a >= 0 ==> floor_div(a, b) == magnitude(a) / b,
        a < 0 ==> floor_div(a, b) == -(magnitude(a) / b) - (if magnitude(a) % b == 0 {
            0int
        } else {
            1int
        }),
{
    let m = magnitude(a);
    let q = m / b;
    let r = m % b;
    vstd::arithmetic::div_mod::lemma_fundamental_div_mod(m, b);
    vstd::arithmetic::div_mod::lemma_mod_bound(m, b);
    assert(m == q * b + r) by (nonlinear_arith)
        requires
            m == b * q + r,
    ;
    assert((q + 1) * b == q * b + b) by (nonlinear_arith);
    assert((-q) * b == -(q * b)) by (nonlinear_arith);
    assert((-q - 1) * b == -(q * b) - b) by (nonlinear_arith);
    if a > 0 {
        if r == 0 {
            lemma_quotient_is(a + b - 1, b, q, b - 1);
        } else {
            lemma_quotient_is(a + b - 1, b, q + 1, r - 1);
        }
    } else {
        if r == 0 {
            lemma_quotient_is(a + b - 1, b, -q, b - 1);
        } else {
            lemma_quotient_is(a + b - 1, b, -q, b - 1 - r);
        }
    }
    if a < 0 {
        if r == 0 {
            lemma_quotient_is(a, b, -q, 0);
        } else {
            lemma_quotient_is(a, b, -q - 1, b - r);
        }
    }
}

/// A quotient and a remainder in range are the quotient and the remainder.
pub proof fn lemma_quotient_is(a: int, b: int, q: int, r: int)
    requires
        b > 0,
        0 <= r < b,
        a == q * b + r,
    ensures
        a / b == q,
        a % b == r,
{
    vstd::arithmetic::div_mod::lemma_fundamental_div_mod_converse(a, b, q, r);
}

} // verus!
