//! Integer plane geometry for collision tests: squared distances compared
//! exactly, no roots and no rounding.

use vstd::prelude::*;

verus! {

/// Coordinates are kept within this band so that every squared distance
/// and cross term fits its integer type.
pub const COORD_LIMIT: i64 = 1000000;

/// A point (or offset) in world units.
#[derive(Clone, Copy, Debug, PartialEq, Eq, Structural)]
pub struct Vec2i {
    pub x: i64,
    pub y: i64,
}

impl Vec2i {
    pub open spec fn in_bounds(self) -> bool {
        -COORD_LIMIT <= self.x <= COORD_LIMIT && -COORD_LIMIT <= self.y <= COORD_LIMIT
    }

    pub fn new(x: i64, y: i64) -> (r: Vec2i)
        ensures
            r.x == x && r.y == y,
    {
        Vec2i { x, y }
    }
}

/// Squared euclidean distance.
pub open spec fn spec_dist2(a: Vec2i, b: Vec2i) -> int {
    (a.x - b.x) * (a.x - b.x) + (a.y - b.y) * (a.y - b.y)
}

/// Whether `a` and `b` lie strictly closer than `radius`: the collision
/// test `distance < radius`, squared.
pub open spec fn spec_within(a: Vec2i, b: Vec2i, radius: int) -> bool {
    spec_dist2(a, b) < radius * radius
}

/// The collision test `distance < radius`, exact on integers.
pub fn within(a: Vec2i, b: Vec2i, radius: u32) -> (r: bool)
    requires
        a.in_bounds(),
        b.in_bounds(),
        radius <= 2000000,
    ensures
        r == spec_within(a, b, radius as int),
{
    let dx: i64 = a.x - b.x;
    let dy: i64 = a.y - b.y;
    proof {
        assert(dx * dx <= 4000000000000i64 && dx * dx >= 0) by (nonlinear_arith)
            requires
                -2000000 <= dx <= 2000000,
        ;
        assert(dy * dy <= 4000000000000i64 && dy * dy >= 0) by (nonlinear_arith)
            requires
                -2000000 <= dy <= 2000000,
        ;
        assert((radius as i64) * (radius as i64) <= 4000000000000i64) by (nonlinear_arith)
            requires
                0 <= radius <= 2000000,
        ;
    }
    let d2: i64 = dx * dx + dy * dy;
    let r2: i64 = radius as i64 * radius as i64;
    d2 < r2
}

/// Whether the segment from `a` to `b` passes within `radius` of `c`
/// (closest point of the segment at distance `<= radius`), stated exactly
/// over integers: the projection of `c` onto the carrier line is clamped to
/// the segment, and the squared distance is compared as a fraction with
/// denominator `|b - a|^2`. A degenerate segment (`a == b`) intersects
/// nothing.
pub open spec fn spec_segment_within(a: Vec2i, b: Vec2i, c: Vec2i, radius: int) -> bool {
    let dx = b.x - a.x;
    let dy = b.y - a.y;
    let len2 = dx * dx + dy * dy;
    let t = (c.x - a.x) * dx + (c.y - a.y) * dy;
    if len2 == 0 {
        false
    } else if t <= 0 {
        spec_dist2(a, c) <= radius * radius
    } else if t >= len2 {
        spec_dist2(b, c) <= radius * radius
    } else {
        spec_dist2(a, c) * len2 - t * t <= radius * radius * len2
    }
}

/// The segment-against-circle test (see `spec_segment_within`), exact on
/// integers.
pub fn segment_within(a: Vec2i, b: Vec2i, c: Vec2i, radius: u32) -> (r: bool)
    requires
        a.in_bounds(),
        b.in_bounds(),
        c.in_bounds(),
        radius <= 2000000,
    ensures
        r == spec_segment_within(a, b, c, radius as int),
{
    let dx: i64 = b.x - a.x;
    let dy: i64 = b.y - a.y;
    let ex: i64 = c.x - a.x;
    let ey: i64 = c.y - a.y;
    let fx: i64 = c.x - b.x;
    let fy: i64 = c.y - b.y;
    proof {
        lemma_square_bound(dx);
        lemma_square_bound(dy);
        lemma_square_bound(ex);
        lemma_square_bound(ey);
        lemma_square_bound(fx);
        lemma_square_bound(fy);
        lemma_product_bound(ex, dx);
        lemma_product_bound(ey, dy);
        assert((radius as i64) * (radius as i64) <= 4000000000000i64) by (nonlinear_arith)
            requires
                0 <= radius <= 2000000,
        ;
    }
    proof {
        assert((a.x - c.x) * (a.x - c.x) == (c.x - a.x) * (c.x - a.x)) by (nonlinear_arith);
        assert((a.y - c.y) * (a.y - c.y) == (c.y - a.y) * (c.y - a.y)) by (nonlinear_arith);
        assert((b.x - c.x) * (b.x - c.x) == (c.x - b.x) * (c.x - b.x)) by (nonlinear_arith);
        assert((b.y - c.y) * (b.y - c.y) == (c.y - b.y) * (c.y - b.y)) by (nonlinear_arith);
    }
    let len2: i64 = dx * dx + dy * dy;
    let t: i64 = ex * dx + ey * dy;
    let r2: i64 = radius as i64 * radius as i64;
    let ae2: i64 = ex * ex + ey * ey;
    if len2 == 0 {
        false
    } else if t <= 0 {
        ae2 <= r2
    } else if t >= len2 {
        let d2: i64 = fx * fx + fy * fy;
        d2 <= r2
    } else {
        proof {
            lemma_i128_products(ae2, len2, t, r2);
        }
        let d2: i128 = ae2 as i128 * len2 as i128 - t as i128 * t as i128;
        let rhs: i128 = r2 as i128 * len2 as i128;
        d2 <= rhs
    }
}

/// Squares of in-band differences stay within `4e12`.
proof fn lemma_square_bound(v: i64)
    requires
        -2000000 <= v <= 2000000,
    ensures
        0 <= v * v <= 4000000000000int,
{
    assert(0 <= v * v <= 4000000000000int) by (nonlinear_arith)
        requires
            -2000000 <= v <= 2000000,
    ;
}

/// Mixed products of in-band differences stay within `4e12`.
proof fn lemma_product_bound(u: i64, v: i64)
    requires
        -2000000 <= u <= 2000000,
        -2000000 <= v <= 2000000,
    ensures
        -4000000000000int <= u * v <= 4000000000000int,
{
    assert(-4000000000000int <= u * v <= 4000000000000int) by (nonlinear_arith)
        requires
            -2000000 <= u <= 2000000,
            -2000000 <= v <= 2000000,
    ;
}

/// The wide products in the clamped-projection comparison fit `i128`.
proof fn lemma_i128_products(d2: i64, len2: i64, t: i64, r2: i64)
    requires
        0 <= d2 <= 8000000000000int,
        0 <= len2 <= 8000000000000int,
        -8000000000000int <= t <= 8000000000000int,
        0 <= r2 <= 4000000000000int,
    ensures
        -100000000000000000000000000int <= d2 * len2 <= 100000000000000000000000000int,
        -100000000000000000000000000int <= t * t <= 100000000000000000000000000int,
        -100000000000000000000000000int <= r2 * len2 <= 100000000000000000000000000int,
{
    assert(d2 * len2 <= 100000000000000000000000000int && d2 * len2 >= 0) by (nonlinear_arith)
        requires
            0 <= d2 <= 8000000000000int,
            0 <= len2 <= 8000000000000int,
    ;
    assert(0 <= t * t <= 100000000000000000000000000int) by (nonlinear_arith)
        requires
            -8000000000000int <= t <= 8000000000000int,
    ;
    assert(r2 * len2 <= 100000000000000000000000000int && r2 * len2 >= 0) by (nonlinear_arith)
        requires
            0 <= r2 <= 4000000000000int,
            0 <= len2 <= 8000000000000int,
    ;
}

} // verus!
