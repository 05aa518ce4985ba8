//! Points, offsets and axis-aligned rectangles on the fixed-point plane.

use vstd::prelude::*;
use crate::fixed::{
    directed, div_floor, floor_div, lemma_product_bound, lemma_square_monotonic,
    lemma_square_of_magnitude, magnitude, sat_add, sat_sub, saturate, saturated, unsigned_abs,
    UNITS_PER_PIXEL,
};

verus! {

/// A point or an offset, in length units.
#[derive(Clone, Copy, Debug, PartialEq, Eq, Structural)]
pub struct Vec2i {
    pub x: i32,
    pub y: i32,
}

impl Vec2i {
    /// The sum of two offsets, each coordinate stopping at the ends of its range.
    pub open spec fn plus_spec(self, other: Vec2i) -> Vec2i {
        Vec2i { x: saturated(self.x + other.x) as i32, y: saturated(self.y + other.y) as i32 }
    }

    /// The difference of two offsets, each coordinate stopping at the ends of its range.
    pub open spec fn minus_spec(self, other: Vec2i) -> Vec2i {
        Vec2i { x: saturated(self.x - other.x) as i32, y: saturated(self.y - other.y) as i32 }
    }

    /// The offset taken `factor` times, each coordinate stopping at the ends of its range.
    pub open spec fn scaled_spec(self, factor: int) -> Vec2i {
        Vec2i { x: saturated(self.x * factor) as i32, y: saturated(self.y * factor) as i32 }
    }

    /// The whole pixel that holds this point: each coordinate divided by the
    /// units in a pixel and rounded down.
    pub open spec fn pixel_spec(self) -> Vec2i {
        Vec2i {
            x: floor_div(self.x as int, UNITS_PER_PIXEL as int) as i32,
            y: floor_div(self.y as int, UNITS_PER_PIXEL as int) as i32,
        }
    }

    pub fn new(x: i32, y: i32) -> (r: Vec2i)
        ensures
            r == (Vec2i { x, y }),
    {
        Vec2i { x, y }
    }

    /// The origin.
    pub fn zero() -> (r: Vec2i)
        ensures
            r == (Vec2i { x: 0, y: 0 }),
    {
        Vec2i { x: 0, y: 0 }
    }

    /// Both coordinates equal to `v`.
    pub fn splat(v: i32) -> (r: Vec2i)
        ensures
            r == (Vec2i { x: v, y: v }),
    {
        Vec2i { x: v, y: v }
    }

    pub fn plus(self, other: Vec2i) -> (r: Vec2i)
        ensures
            r == self.plus_spec(other),
    {
        Vec2i { x: sat_add(self.x, other.x), y: sat_add(self.y, other.y) }
    }

    pub fn minus(self, other: Vec2i) -> (r: Vec2i)
        ensures
            r == self.minus_spec(other),
    {
        Vec2i { x: sat_sub(self.x, other.x), y: sat_sub(self.y, other.y) }
    }

    pub fn scaled(self, factor: i32) -> (r: Vec2i)
        ensures
            r == self.scaled_spec(factor as int),
    {
        let fx: i64 = self.x as i64;
        let fy: i64 = self.y as i64;
        let k: i64 = factor as i64;
        assert(-0x4000_0000_0000_0000 <= fx * k <= 0x4000_0000_0000_0000) by (nonlinear_arith)
            requires
                -0x8000_0000 <= fx <= 0x7fff_ffff,
                -0x8000_0000 <= k <= 0x7fff_ffff,
        ;
        assert(-0x4000_0000_0000_0000 <= fy * k <= 0x4000_0000_0000_0000) by (nonlinear_arith)
            requires
                -0x8000_0000 <= fy <= 0x7fff_ffff,
                -0x8000_0000 <= k <= 0x7fff_ffff,
        ;
        Vec2i { x: saturate(fx * k), y: saturate(fy * k) }
    }

    /// The offset brought to the length `length`, short of it by less than
    /// two units; the zero offset and a length that is not positive give the
    /// zero offset.
    pub open spec fn with_length_spec(self, length: int) -> Vec2i {
        if length <= 0 || (self.x == 0 && self.y == 0) {
            Vec2i { x: 0, y: 0 }
        } else {
            let (sx, sy) = scaled_offset(self.x as int, self.y as int, length);
            Vec2i { x: sx as i32, y: sy as i32 }
        }
    }

    /// The offset brought to the length `length`: never longer than it, and
    /// short of it by less than two units.
    pub fn with_length(self, length: i32) -> (r: Vec2i)
        ensures
            r == self.with_length_spec(length as int),
            squared_length(r.x as int, r.y as int) <= if length > 0 {
                length * length
            } else {
                0
            },
            length > 0 && (self.x != 0 || self.y != 0) ==> squared_length(r.x as int, r.y as int)
                >= (length - 2) * (length - 2),
            length > 0 && (self.x != 0 || self.y != 0) ==> r.x != 0 || r.y != 0,
    {
        if length <= 0 || (self.x == 0 && self.y == 0) {
            return Vec2i { x: 0, y: 0 };
        }
        proof {
            lemma_scaled_offset(self.x as int, self.y as int, length as int);
        }
        let (sx, sy) = scale_offset(self.x as i64, self.y as i64, length);
        Vec2i { x: sx, y: sy }
    }

    /// The whole pixel that holds this point.
    pub fn pixel(self) -> (r: Vec2i)
        ensures
            r == self.pixel_spec(),
    {
        let px: i64 = div_floor(self.x as i64, 1000);
        let py: i64 = div_floor(self.y as i64, 1000);
        Vec2i { x: px as i32, y: py as i32 }
    }
}

/// An axis-aligned rectangle, given by its least and greatest corner; it holds
/// the points between them, edges included.
#[derive(Clone, Copy, Debug, PartialEq, Eq, Structural)]
pub struct Rectangle {
    pub min: Vec2i,
    pub max: Vec2i,
}

impl Rectangle {
    /// The point `(x, y)` lies in the rectangle.
    pub open spec fn contains(self, x: int, y: int) -> bool {
        &&& self.min.x <= x <= self.max.x
        &&& self.min.y <= y <= self.max.y
    }

    /// On each axis the two intervals share a point.
    pub open spec fn overlaps(self, other: Rectangle) -> bool {
        &&& self.min.x <= self.max.x && other.min.x <= other.max.x
        &&& self.min.y <= self.max.y && other.min.y <= other.max.y
        &&& self.min.x <= other.max.x && other.min.x <= self.max.x
        &&& self.min.y <= other.max.y && other.min.y <= self.max.y
    }

    /// The rectangle around `position` that reaches `half` to each side.
    pub open spec fn around(position: Vec2i, half: Vec2i) -> Rectangle {
        Rectangle { min: position.minus_spec(half), max: position.plus_spec(half) }
    }

    /// The rectangle around `position` that reaches `half` to each side.
    pub fn new_v(position: Vec2i, half: Vec2i) -> (r: Rectangle)
        ensures
            r == Rectangle::around(position, half),
    {
        Rectangle { min: position.minus(half), max: position.plus(half) }
    }

    /// Whether the two rectangles share a point.
    pub fn intersects(self, other: Rectangle) -> (hit: bool)
        ensures
            hit == self.overlaps(other),
            hit <==> exists|x: int, y: int| self.contains(x, y) && other.contains(x, y),
    {
        proof {
            lemma_overlap_is_common_point(self, other);
        }
        self.min.x <= self.max.x && other.min.x <= other.max.x && self.min.y <= self.max.y
            && other.min.y <= other.max.y && self.min.x <= other.max.x && other.min.x
            <= self.max.x && self.min.y <= other.max.y && other.min.y <= self.max.y
    }
}

/// Two rectangles overlap on both axes exactly when some point lies in both.
pub proof fn lemma_overlap_is_common_point(a: Rectangle, b: Rectangle)
    ensures
        a.overlaps(b) <==> exists|x: int, y: int| a.contains(x, y) && b.contains(x, y),
{
    if a.overlaps(b) {
        let x: int = if a.min.x >= b.min.x {
            a.min.x as int
        } else {
            b.min.x as int
        };
        let y: int = if a.min.y >= b.min.y {
            a.min.y as int
        } else {
            b.min.y as int
        };
        assert(a.contains(x, y) && b.contains(x, y));
    }
}

/// The squared length of the offset `(dx, dy)`.
pub open spec fn squared_length(dx: int, dy: int) -> int {
    dx * dx + dy * dy
}

/// `q` is `a * length` over the square root of `d2`, rounded down: the
/// greatest natural number whose square, taken `d2` times, is no more than the
/// square of `a * length`.
pub open spec fn is_scaled_coordinate(a: int, d2: int, length: int, q: int) -> bool {
    &&& q >= 0
    &&& (q * q) * d2 <= (a * a) * (length * length)
    &&& ((q + 1) * (q + 1)) * d2 > (a * a) * (length * length)
}

/// `a * length` over the square root of `d2`, rounded down.
pub open spec fn scaled_coordinate(a: int, d2: int, length: int) -> int {
    choose|q: int| is_scaled_coordinate(a, d2, length, q)
}

/// The offset `(dx, dy)`, which is not zero, brought to the positive length
/// `length`.
///
/// Each coordinate is scaled by `length` over the offset's own length and
/// rounded toward zero, so that the result points the same way, is never
/// longer than `length`, and falls short of it by less than two units. Where
/// both coordinates would round to nothing, the result is one unit along the
/// longer coordinate.
pub open spec fn scaled_offset(dx: int, dy: int, length: int) -> (int, int) {
    let d2 = squared_length(dx, dy);
    let qx = scaled_coordinate(magnitude(dx), d2, length);
    let qy = scaled_coordinate(magnitude(dy), d2, length);
    if qx == 0 && qy == 0 {
        if magnitude(dx) >= magnitude(dy) {
            (directed(dx, 1), 0)
        } else {
            (0, directed(dy, 1))
        }
    } else {
        (directed(dx, qx), directed(dy, qy))
    }
}

/// A product with a natural number keeps the order of the other factor.
proof fn lemma_scale_order(x: int, y: int, k: int)
    by (nonlinear_arith)
    requires
        x <= y,
        k >= 0,
    ensures
        x * k <= y * k,
{
}

/// Where a product with a positive number is less than another, so is the factor.
proof fn lemma_cancel_order(x: int, y: int, k: int)
    by (nonlinear_arith)
    requires
        x * k < y * k,
        k > 0,
    ensures
        x < y,
{
}

/// A natural number whose square is no more than another's is no more than it.
proof fn lemma_root_order(x: int, y: int)
    requires
        0 <= x,
        0 <= y,
        x * x <= y * y,
    ensures
        x <= y,
{
    if x > y {
        lemma_square_monotonic(y + 1, x);
        assert((y + 1) * (y + 1) > y * y) by (nonlinear_arith)
            requires
                y >= 0,
        ;
    }
}

/// Only one number is the scaled coordinate.
pub proof fn lemma_scaled_coordinate_unique(a: int, d2: int, length: int, q: int)
    requires
        d2 > 0,
        is_scaled_coordinate(a, d2, length, q),
    ensures
        scaled_coordinate(a, d2, length) == q,
{
    let c = scaled_coordinate(a, d2, length);
    assert(is_scaled_coordinate(a, d2, length, c));
    if c < q {
        lemma_square_monotonic(c + 1, q);
        lemma_scale_order((c + 1) * (c + 1), q * q, d2);
    } else if q < c {
        lemma_square_monotonic(q + 1, c);
        lemma_scale_order((q + 1) * (q + 1), c * c, d2);
    }
}

/// Counting up from `q`, whose square taken `d2` times is within the bound,
/// the scaled coordinate is found.
proof fn lemma_scaled_coordinate_search(a: int, d2: int, length: int, q: int)
    requires
        d2 > 0,
        q >= 0,
        (q * q) * d2 <= (a * a) * (length * length),
    ensures
        is_scaled_coordinate(a, d2, length, scaled_coordinate(a, d2, length)),
    decreases (a * a) * (length * length) - q,
{
    let bound = (a * a) * (length * length);
    if ((q + 1) * (q + 1)) * d2 > bound {
        assert(is_scaled_coordinate(a, d2, length, q));
    } else {
        assert(q + 1 <= bound) by (nonlinear_arith)
            requires
                ((q + 1) * (q + 1)) * d2 <= bound,
                d2 >= 1,
                q >= 0,
        ;
        lemma_scaled_coordinate_search(a, d2, length, q + 1);
    }
}

/// Every coordinate of an offset that is not zero has a scaled coordinate; it
/// is no more than the length, nothing for a coordinate that is nothing, and
/// no more than the coordinate where the length is no more than the offset's.
pub proof fn lemma_scaled_coordinate(a: int, d2: int, length: int)
    requires
        0 <= a,
        a * a <= d2,
        d2 > 0,
        length >= 0,
    ensures
        is_scaled_coordinate(a, d2, length, scaled_coordinate(a, d2, length)),
        0 <= scaled_coordinate(a, d2, length) <= length,
        a == 0 ==> scaled_coordinate(a, d2, length) == 0,
        length * length <= d2 ==> scaled_coordinate(a, d2, length) <= a,
{
    let bound = (a * a) * (length * length);
    let l2 = length * length;
    assert(bound >= 0 && l2 >= 0 && a * a >= 0) by (nonlinear_arith)
        requires
            bound == (a * a) * (length * length),
            l2 == length * length,
    ;
    assert((0int * 0int) * d2 == 0) by (nonlinear_arith);
    lemma_scaled_coordinate_search(a, d2, length, 0);
    let q = scaled_coordinate(a, d2, length);
    // q * q * d2 <= a * a * l2 <= d2 * l2, so q * q <= l2
    lemma_scale_order(a * a, d2, l2);
    assert(d2 * l2 == l2 * d2) by (nonlinear_arith);
    if q * q > l2 {
        lemma_scale_order(l2 + 1, q * q, d2);
        assert((l2 + 1) * d2 > l2 * d2) by (nonlinear_arith)
            requires
                d2 > 0,
        ;
    }
    lemma_root_order(q, length);
    if a == 0 {
        assert(bound == 0) by (nonlinear_arith)
            requires
                bound == (a * a) * (length * length),
                a == 0,
        ;
        if q > 0 {
            assert((q * q) * d2 > 0) by (nonlinear_arith)
                requires
                    q > 0,
                    d2 > 0,
            ;
        }
    }
    if l2 <= d2 {
        // q * q * d2 <= a * a * l2 <= a * a * d2, so q * q <= a * a
        assert((a * a) * l2 <= (a * a) * d2) by (nonlinear_arith)
            requires
                l2 <= d2,
                a * a >= 0,
        ;
        if q * q > a * a {
            lemma_scale_order(a * a + 1, q * q, d2);
            assert((a * a + 1) * d2 > (a * a) * d2) by (nonlinear_arith)
                requires
                    d2 > 0,
            ;
        }
        lemma_root_order(q, a);
    }
}

/// Two scaled coordinates, each within one of its true value, make an offset
/// that falls short of the length by less than two units.
proof fn lemma_short_by_less_than_two(qx: int, qy: int, length: int)
    requires
        length >= 1,
        0 <= qx <= length,
        0 <= qy <= length,
        (qx + 1) * (qx + 1) + (qy + 1) * (qy + 1) > length * length,
        qx > 0 || qy > 0,
    ensures
        qx * qx + qy * qy >= (length - 2) * (length - 2),
{
    let a = qx + 1;
    let b = qy + 1;
    assert(qx * qx == a * a - 2 * a + 1) by (nonlinear_arith)
        requires
            a == qx + 1,
    ;
    assert(qy * qy == b * b - 2 * b + 1) by (nonlinear_arith)
        requires
            b == qy + 1,
    ;
    assert((length - 2) * (length - 2) == length * length - 4 * length + 4) by (nonlinear_arith);
    assert(qx * qx >= 0 && qy * qy >= 0) by (nonlinear_arith);
    if length == 1 {
        if qx > 0 {
            assert(qx * qx >= 1) by (nonlinear_arith)
                requires
                    qx >= 1,
            ;
        } else {
            assert(qy * qy >= 1) by (nonlinear_arith)
                requires
                    qy >= 1,
            ;
        }
    } else if a + b < 2 * length {
    } else {
        // a >= length - 1, so qx >= length - 2 >= 0
        lemma_square_monotonic(length - 2, qx);
    }
}

/// What holds of an offset brought to a length: each coordinate keeps its
/// direction, the result is not zero, no longer than the length and short of
/// it by less than two units, and where the length is no more than the
/// offset's own, no coordinate grows.
pub proof fn lemma_scaled_offset(dx: int, dy: int, length: int)
    requires
        dx != 0 || dy != 0,
        length >= 1,
    ensures
        ({
            let (sx, sy) = scaled_offset(dx, dy, length);
            &&& dx >= 0 ==> 0 <= sx <= length
            &&& dx <= 0 ==> -length <= sx <= 0
            &&& dy >= 0 ==> 0 <= sy <= length
            &&& dy <= 0 ==> -length <= sy <= 0
            &&& sx != 0 || sy != 0
            &&& squared_length(sx, sy) <= length * length
            &&& squared_length(sx, sy) >= (length - 2) * (length - 2)
            &&& length * length <= squared_length(dx, dy) ==> magnitude(sx) <= magnitude(dx)
                && magnitude(sy) <= magnitude(dy)
        }),
{
    let (sx, sy) = scaled_offset(dx, dy, length);
    let d2 = squared_length(dx, dy);
    let ax = magnitude(dx);
    let ay = magnitude(dy);
    let l2 = length * length;
    lemma_square_of_magnitude(dx);
    lemma_square_of_magnitude(dy);
    assert(d2 > 0) by (nonlinear_arith)
        requires
            d2 == dx * dx + dy * dy,
            dx != 0 || dy != 0,
    ;
    assert(l2 >= 1) by (nonlinear_arith)
        requires
            l2 == length * length,
            length >= 1,
    ;
    lemma_scaled_coordinate(ax, d2, length);
    lemma_scaled_coordinate(ay, d2, length);
    let qx = scaled_coordinate(ax, d2, length);
    let qy = scaled_coordinate(ay, d2, length);
    // ((qx + 1)^2 + (qy + 1)^2) * d2 > (ax^2 + ay^2) * l2 == d2 * l2
    let hx = (qx + 1) * (qx + 1);
    let hy = (qy + 1) * (qy + 1);
    assert((hx + hy) * d2 == hx * d2 + hy * d2) by (nonlinear_arith);
    assert((ax * ax) * l2 + (ay * ay) * l2 == l2 * d2) by (nonlinear_arith)
        requires
            d2 == ax * ax + ay * ay,
    ;
    lemma_cancel_order(l2, hx + hy, d2);
    // (qx^2 + qy^2) * d2 <= d2 * l2
    assert((qx * qx + qy * qy) * d2 == (qx * qx) * d2 + (qy * qy) * d2) by (nonlinear_arith);
    if qx * qx + qy * qy > l2 {
        lemma_scale_order(l2 + 1, qx * qx + qy * qy, d2);
        assert((l2 + 1) * d2 > l2 * d2) by (nonlinear_arith)
            requires
                d2 > 0,
        ;
    }
    if qx == 0 && qy == 0 {
        assert(hx == 1 && hy == 1) by (nonlinear_arith)
            requires
                hx == (qx + 1) * (qx + 1),
                hy == (qy + 1) * (qy + 1),
                qx == 0,
                qy == 0,
        ;
        assert(length == 1) by (nonlinear_arith)
            requires
                l2 < 2,
                l2 == length * length,
                length >= 1,
        ;
        assert((length - 2) * (length - 2) == 1) by (nonlinear_arith)
            requires
                length == 1,
        ;
        if ax >= ay {
            assert(ax >= 1);
            assert(sx == directed(dx, 1) && sy == 0);
        } else {
            assert(ay >= 1);
            assert(sx == 0 && sy == directed(dy, 1));
        }
        assert(squared_length(sx, sy) == 1) by (nonlinear_arith)
            requires
                (sx == 1 || sx == -1) && sy == 0 || sx == 0 && (sy == 1 || sy == -1),
        ;
    } else {
        lemma_short_by_less_than_two(qx, qy, length);
        lemma_square_of_magnitude(sx);
        lemma_square_of_magnitude(sy);
        assert(sx == directed(dx, qx));
        assert(sy == directed(dy, qy));
        assert(magnitude(sx) == qx);
        assert(magnitude(sy) == qy);
    }
}

/// `a * length` over the square root of `d2`, rounded down.
fn scale_coordinate(a: u128, d2: u128, length: u128) -> (q: u128)
    requires
        a <= 0xffff_ffff,
        a * a <= d2,
        0 < d2 <= 0x1_ffff_fffc_0000_0002,
        1 <= length <= 0x7fff_ffff,
    ensures
        is_scaled_coordinate(a as int, d2 as int, length as int, q as int),
        q == scaled_coordinate(a as int, d2 as int, length as int),
        q <= length,
{
    proof {
        lemma_product_bound(a as int, a as int, 0xffff_ffff, 0xffff_ffff);
        lemma_product_bound(length as int, length as int, 0x7fff_ffff, 0x7fff_ffff);
        lemma_product_bound(
            a as int * a as int,
            length as int * length as int,
            0xffff_ffffint * 0xffff_ffffint,
            0x7fff_ffffint * 0x7fff_ffffint,
        );
    }
    let bound: u128 = (a * a) * (length * length);
    let mut lo: u128 = 0;
    let mut hi: u128 = length + 1;
    proof {
        let l = length as int;
        let l2 = l * l;
        assert((0int * 0int) * (d2 as int) == 0) by (nonlinear_arith);
        assert((l + 1) * (l + 1) > l2) by (nonlinear_arith)
            requires
                l2 == l * l,
                l >= 1,
        ;
        lemma_scale_order(a as int * a as int, d2 as int, l2);
        assert(((l + 1) * (l + 1)) * (d2 as int) > (d2 as int) * l2) by (nonlinear_arith)
            requires
                (l + 1) * (l + 1) > l2,
                d2 > 0,
        ;
    }
    while hi - lo > 1
        invariant
            lo < hi <= length + 1,
            1 <= length <= 0x7fff_ffff,
            0 < d2 <= 0x1_ffff_fffc_0000_0002,
            bound == (a * a) * (length * length),
            (lo * lo) * d2 <= bound,
            (hi * hi) * d2 > bound,
        decreases hi - lo,
    {
        let mid: u128 = lo + (hi - lo) / 2;
        proof {
            lemma_product_bound(mid as int, mid as int, 0x8000_0000, 0x8000_0000);
            lemma_product_bound(
                mid as int * mid as int,
                d2 as int,
                0x8000_0000int * 0x8000_0000int,
                0x1_ffff_fffc_0000_0002int,
            );
        }
        let taken: u128 = (mid * mid) * d2;
        if taken <= bound {
            lo = mid;
        } else {
            hi = mid;
        }
    }
    proof {
        assert(hi == lo + 1);
        lemma_scaled_coordinate_unique(a as int, d2 as int, length as int, lo as int);
    }
    lo
}

/// Brings the offset `(dx, dy)` to the length `length`.
pub(crate) fn scale_offset(dx: i64, dy: i64, length: i32) -> (r: (i32, i32))
    requires
        -0xffff_ffff <= dx <= 0xffff_ffff,
        -0xffff_ffff <= dy <= 0xffff_ffff,
        dx != 0 || dy != 0,
        length >= 1,
    ensures
        (r.0 as int, r.1 as int) == scaled_offset(dx as int, dy as int, length as int),
{
    let ax: u128 = unsigned_abs(dx) as u128;
    let ay: u128 = unsigned_abs(dy) as u128;
    proof {
        lemma_product_bound(ax as int, ax as int, 0xffff_ffff, 0xffff_ffff);
        lemma_product_bound(ay as int, ay as int, 0xffff_ffff, 0xffff_ffff);
        lemma_square_of_magnitude(dx as int);
        lemma_square_of_magnitude(dy as int);
        assert(ax * ax + ay * ay > 0) by (nonlinear_arith)
            requires
                ax > 0 || ay > 0,
                ax >= 0,
                ay >= 0,
        ;
    }
    let d2: u128 = ax * ax + ay * ay;
    let qx: u128 = scale_coordinate(ax, d2, length as u128);
    let qy: u128 = scale_coordinate(ay, d2, length as u128);
    if qx == 0 && qy == 0 {
        if ax >= ay {
            (if dx < 0 {
                -1
            } else {
                1
            }, 0)
        } else {
            (0, if dy < 0 {
                -1
            } else {
                1
            })
        }
    } else {
        let sx: i64 = if dx < 0 {
            -(qx as i64)
        } else if dx > 0 {
            qx as i64
        } else {
            0
        };
        let sy: i64 = if dy < 0 {
            -(qy as i64)
        } else if dy > 0 {
            qy as i64
        } else {
            0
        };
        (sx as i32, sy as i32)
    }
}

} // verus!
