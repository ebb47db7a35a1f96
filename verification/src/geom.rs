//! Collision geometry on fixed-point coordinates.
//!
//! The host world measures 1000 fixed-point sub-units per world unit.  All
//! tests here are exact: instead of square roots and slopes, hits are decided
//! by comparing squared lengths and cross products, which agrees with the
//! real-valued formulation wherever the latter is defined and extends it to
//! vertical segments.

use vstd::prelude::*;

verus! {

/// Fixed-point sub-units per world unit.
pub const MILLI: i64 = 1000;

/// Largest coordinate magnitude the geometry accepts; positions and
/// velocities are clamped into this range by the simulation.
pub const COORD_LIMIT: i64 = 1_000_000_000;

/// A 2D point or vector in fixed-point sub-units.
#[derive(Clone, Copy, PartialEq, Eq, Structural, Debug)]
pub struct Vec2I {
    pub x: i64,
    pub y: i64,
}

/// An axis-aligned rectangle, `x`/`y` its smallest corner.
#[derive(Clone, Copy, PartialEq, Eq, Structural, Debug)]
pub struct RectI {
    pub x: i64,
    pub y: i64,
    pub w: i64,
    pub h: i64,
}

pub open spec fn in_range(v: Vec2I) -> bool {
    &&& -COORD_LIMIT <= v.x <= COORD_LIMIT
    &&& -COORD_LIMIT <= v.y <= COORD_LIMIT
}

pub open spec fn rect_in_range(r: RectI) -> bool {
    &&& 0 <= r.w
    &&& 0 <= r.h
    &&& -COORD_LIMIT <= r.x
    &&& r.x + r.w <= COORD_LIMIT
    &&& -COORD_LIMIT <= r.y
    &&& r.y + r.h <= COORD_LIMIT
}

/// Squared Euclidean distance between two points.
pub open spec fn dist2(a: Vec2I, b: Vec2I) -> int {
    (b.x - a.x) * (b.x - a.x) + (b.y - a.y) * (b.y - a.y)
}

proof fn lemma_mul_bound(a: int, b: int, aa: int, bb: int)
    requires
        -aa <= a <= aa,
        -bb <= b <= bb,
        0 <= aa,
        0 <= bb,
    ensures
        -(aa * bb) <= a * b <= aa * bb,
{
    assert(-(aa * bb) <= a * b <= aa * bb) by (nonlinear_arith)
        requires
            -aa <= a <= aa,
            -bb <= b <= bb,
            0 <= aa,
            0 <= bb,
    ;
}

proof fn lemma_square_nonneg(a: int)
    ensures
        0 <= a * a,
{
    assert(0 <= a * a) by (nonlinear_arith);
}

/// Floor of the square root: the unique `r` with `r * r <= n < (r + 1) * (r + 1)`.
pub fn isqrt(n: u64) -> (r: u64)
    ensures
        r * r <= n,
        n < (r + 1) * (r + 1),
{
    let mut lo: u64 = 0;
    let mut hi: u64 = 4_294_967_296;
    while lo + 1 < hi
        invariant
            lo < hi <= 4_294_967_296,
            lo * lo <= n,
            n < hi * hi,
        decreases hi - lo,
    {
        let mid: u64 = lo + (hi - lo) / 2;
        assert(mid * mid <= 4_294_967_295u64 * 4_294_967_295u64) by (nonlinear_arith)
            requires
                0 <= mid < 4_294_967_296u64,
        ;
        if mid * mid <= n {
            lo = mid;
        } else {
            hi = mid;
        }
    }
    lo
}

/// Floor of the Euclidean distance between `a` and `b`, in sub-units.
pub fn dist_milli(a: Vec2I, b: Vec2I) -> (d: i64)
    requires
        in_range(a),
        in_range(b),
    ensures
        0 <= d,
        d * d <= dist2(a, b),
        dist2(a, b) < (d + 1) * (d + 1),
        d == spec_floor_sqrt(dist2(a, b)),
{
    let dx: i64 = b.x - a.x;
    let dy: i64 = b.y - a.y;
    proof {
        lemma_mul_bound(dx as int, dx as int, 2 * COORD_LIMIT as int, 2 * COORD_LIMIT as int);
        lemma_mul_bound(dy as int, dy as int, 2 * COORD_LIMIT as int, 2 * COORD_LIMIT as int);
        lemma_square_nonneg(dx as int);
        lemma_square_nonneg(dy as int);
    }
    let s128: i128 = dx as i128 * dx as i128 + dy as i128 * dy as i128;
    assert(0 <= s128 <= 8_000_000_000_000_000_000);
    let s: u64 = s128 as u64;
    assert(s == dist2(a, b));
    let r: u64 = isqrt(s);
    assert(r <= 3_000_000_000) by (nonlinear_arith)
        requires
            r * r <= s,
            s <= 8_000_000_000_000_000_000u64,
    ;
    proof {
        lemma_floor_sqrt_agrees(dist2(a, b), r as int);
    }
    r as i64
}

/// Dot product of `c - p0` with `p1 - p0`.
pub open spec fn seg_dot(p0: Vec2I, p1: Vec2I, c: Vec2I) -> int {
    (c.x - p0.x) * (p1.x - p0.x) + (c.y - p0.y) * (p1.y - p0.y)
}

/// Cross product of `c - p0` with `p1 - p0`.
pub open spec fn seg_cross(p0: Vec2I, p1: Vec2I, c: Vec2I) -> int {
    (c.x - p0.x) * (p1.y - p0.y) - (c.y - p0.y) * (p1.x - p0.x)
}

/// The segment/circle test: the projection of `center` onto the carrier line
/// must fall within the segment, and the perpendicular distance from the
/// center to the line must be at most `radius`.  Both conditions are stated
/// multiplied out so that they are exact over the integers.
pub open spec fn spec_segment_hits_circle(p0: Vec2I, p1: Vec2I, radius: int, center: Vec2I) -> bool {
    let dot = seg_dot(p0, p1, center);
    let cross = seg_cross(p0, p1, center);
    let l2 = dist2(p0, p1);
    &&& 0 <= dot
    &&& dot <= l2
    &&& cross * cross <= radius * radius * l2
}

/// `center` lies on the segment from `p0` to `p1`.
pub open spec fn on_segment(p0: Vec2I, p1: Vec2I, center: Vec2I) -> bool {
    &&& seg_cross(p0, p1, center) == 0
    &&& 0 <= seg_dot(p0, p1, center) <= dist2(p0, p1)
}

/// Whether the segment from `p0` to `p1` passes within `radius` of `center`.
///
/// Zero-length segments are excluded: the projection parameter would be
/// undefined there, and callers never issue such queries.
pub fn segment_hits_circle(p0: Vec2I, p1: Vec2I, radius: i64, center: Vec2I) -> (hit: bool)
    requires
        in_range(p0),
        in_range(p1),
        in_range(center),
        0 <= radius <= COORD_LIMIT,
        p0 != p1,
    ensures
        hit == spec_segment_hits_circle(p0, p1, radius as int, center),
{
    let dx: i128 = (p1.x - p0.x) as i128;
    let dy: i128 = (p1.y - p0.y) as i128;
    let ex: i128 = (center.x - p0.x) as i128;
    let ey: i128 = (center.y - p0.y) as i128;
    proof {
        let b: int = 2 * COORD_LIMIT as int;
        lemma_mul_bound(ex as int, dx as int, b, b);
        lemma_mul_bound(ey as int, dy as int, b, b);
        lemma_mul_bound(dx as int, dx as int, b, b);
        lemma_mul_bound(dy as int, dy as int, b, b);
        lemma_mul_bound(ex as int, dy as int, b, b);
        lemma_mul_bound(ey as int, dx as int, b, b);
    }
    let dot: i128 = ex * dx + ey * dy;
    let l2: i128 = dx * dx + dy * dy;
    let cross: i128 = ex * dy - ey * dx;
    let r: i128 = radius as i128;
    proof {
        let m: int = 8_000_000_000_000_000_000;
        lemma_mul_bound(cross as int, cross as int, m, m);
        lemma_mul_bound(r as int, r as int, COORD_LIMIT as int, COORD_LIMIT as int);
        lemma_mul_bound(r as int * r as int, l2 as int, COORD_LIMIT as int * COORD_LIMIT as int, m);
    }
    0 <= dot && dot <= l2 && cross * cross <= r * r * l2
}

/// A circle whose center lies on a non-degenerate segment is hit for every
/// radius of at least zero: clamping the projection cannot move the closest
/// point away from a center that already sits on the segment.
pub proof fn lemma_center_on_segment_hits(p0: Vec2I, p1: Vec2I, radius: int, center: Vec2I)
    requires
        p0 != p1,
        on_segment(p0, p1, center),
        0 <= radius,
    ensures
        spec_segment_hits_circle(p0, p1, radius, center),
{
    lemma_square_nonneg((p1.x - p0.x) as int);
    lemma_square_nonneg((p1.y - p0.y) as int);
    assert(0 <= radius * radius * dist2(p0, p1)) by (nonlinear_arith)
        requires
            0 <= radius,
            0 <= dist2(p0, p1),
    ;
}

pub open spec fn imin(a: int, b: int) -> int {
    if a <= b {
        a
    } else {
        b
    }
}

pub open spec fn imax(a: int, b: int) -> int {
    if a <= b {
        b
    } else {
        a
    }
}

/// The slope-intercept line/line test, carried out exactly over the integers.
///
/// Segments with equal direction slopes (parallel or collinear) never count
/// as intersecting.  Otherwise the unique intersection point of the two
/// carrier lines must lie inside both segments' bounding boxes; the point is
/// rational, so every comparison is multiplied by the (positive) denominator.
pub open spec fn spec_line_intersects_line(a0: Vec2I, a1: Vec2I, b0: Vec2I, b1: Vec2I) -> bool {
    let adx = a1.x - a0.x;
    let ady = a1.y - a0.y;
    let bdx = b1.x - b0.x;
    let bdy = b1.y - b0.y;
    let d0 = adx * bdy - ady * bdx;
    if d0 == 0 {
        false
    } else {
        let n0 = (b0.x - a0.x) * bdy - (b0.y - a0.y) * bdx;
        let d = if d0 > 0 { d0 } else { -d0 };
        let n = if d0 > 0 { n0 } else { -n0 };
        let pxd = a0.x * d + n * adx;
        let pyd = a0.y * d + n * ady;
        &&& imin(a0.x as int, a1.x as int) * d <= pxd <= imax(a0.x as int, a1.x as int) * d
        &&& imin(a0.y as int, a1.y as int) * d <= pyd <= imax(a0.y as int, a1.y as int) * d
        &&& imin(b0.x as int, b1.x as int) * d <= pxd <= imax(b0.x as int, b1.x as int) * d
        &&& imin(b0.y as int, b1.y as int) * d <= pyd <= imax(b0.y as int, b1.y as int) * d
    }
}

/// Whether segment `a0..a1` intersects segment `b0..b1`, treating parallel
/// and collinear pairs as non-intersecting.
pub fn line_intersects_line(a0: Vec2I, a1: Vec2I, b0: Vec2I, b1: Vec2I) -> (hit: bool)
    requires
        in_range(a0),
        in_range(a1),
        in_range(b0),
        in_range(b1),
    ensures
        hit == spec_line_intersects_line(a0, a1, b0, b1),
{
    let adx: i128 = (a1.x - a0.x) as i128;
    let ady: i128 = (a1.y - a0.y) as i128;
    let bdx: i128 = (b1.x - b0.x) as i128;
    let bdy: i128 = (b1.y - b0.y) as i128;
    proof {
        let b: int = 2 * COORD_LIMIT as int;
        lemma_mul_bound(adx as int, bdy as int, b, b);
        lemma_mul_bound(ady as int, bdx as int, b, b);
    }
    let d0: i128 = adx * bdy - ady * bdx;
    if d0 == 0 {
        return false;
    }
    proof {
        let b: int = 2 * COORD_LIMIT as int;
        lemma_mul_bound((b0.x - a0.x) as int, bdy as int, b, b);
        lemma_mul_bound((b0.y - a0.y) as int, bdx as int, b, b);
    }
    let n0: i128 = (b0.x - a0.x) as i128 * bdy - (b0.y - a0.y) as i128 * bdx;
    let d: i128 = if d0 > 0 { d0 } else { -d0 };
    let n: i128 = if d0 > 0 { n0 } else { -n0 };
    proof {
        let m: int = 8_000_000_000_000_000_000;
        let b: int = 2 * COORD_LIMIT as int;
        lemma_mul_bound(n as int, adx as int, m, b);
        lemma_mul_bound(n as int, ady as int, m, b);
        lemma_mul_bound(a0.x as int, d as int, COORD_LIMIT as int, m);
        lemma_mul_bound(a0.y as int, d as int, COORD_LIMIT as int, m);
    }
    let pxd: i128 = a0.x as i128 * d + n * adx;
    let pyd: i128 = a0.y as i128 * d + n * ady;
    let a_min_x: i128 = if a0.x <= a1.x { a0.x as i128 } else { a1.x as i128 };
    let a_max_x: i128 = if a0.x <= a1.x { a1.x as i128 } else { a0.x as i128 };
    let a_min_y: i128 = if a0.y <= a1.y { a0.y as i128 } else { a1.y as i128 };
    let a_max_y: i128 = if a0.y <= a1.y { a1.y as i128 } else { a0.y as i128 };
    let b_min_x: i128 = if b0.x <= b1.x { b0.x as i128 } else { b1.x as i128 };
    let b_max_x: i128 = if b0.x <= b1.x { b1.x as i128 } else { b0.x as i128 };
    let b_min_y: i128 = if b0.y <= b1.y { b0.y as i128 } else { b1.y as i128 };
    let b_max_y: i128 = if b0.y <= b1.y { b1.y as i128 } else { b0.y as i128 };
    proof {
        let m: int = 8_000_000_000_000_000_000;
        lemma_mul_bound(a_min_x as int, d as int, COORD_LIMIT as int, m);
        lemma_mul_bound(a_max_x as int, d as int, COORD_LIMIT as int, m);
        lemma_mul_bound(a_min_y as int, d as int, COORD_LIMIT as int, m);
        lemma_mul_bound(a_max_y as int, d as int, COORD_LIMIT as int, m);
        lemma_mul_bound(b_min_x as int, d as int, COORD_LIMIT as int, m);
        lemma_mul_bound(b_max_x as int, d as int, COORD_LIMIT as int, m);
        lemma_mul_bound(b_min_y as int, d as int, COORD_LIMIT as int, m);
        lemma_mul_bound(b_max_y as int, d as int, COORD_LIMIT as int, m);
    }
    a_min_x * d <= pxd && pxd <= a_max_x * d && a_min_y * d <= pyd && pyd <= a_max_y * d
        && b_min_x * d <= pxd && pxd <= b_max_x * d && b_min_y * d <= pyd && pyd <= b_max_y * d
}

/// The swept test against a rectangle: any of its four edges intersecting
/// the segment counts as a hit.
pub open spec fn spec_segment_hits_rect(p0: Vec2I, p1: Vec2I, r: RectI) -> bool {
    let tl = Vec2I { x: r.x, y: r.y };
    let tr = Vec2I { x: (r.x + r.w) as i64, y: r.y };
    let bl = Vec2I { x: r.x, y: (r.y + r.h) as i64 };
    let br = Vec2I { x: (r.x + r.w) as i64, y: (r.y + r.h) as i64 };
    ||| spec_line_intersects_line(p0, p1, tl, bl)
    ||| spec_line_intersects_line(p0, p1, tr, br)
    ||| spec_line_intersects_line(p0, p1, tl, tr)
    ||| spec_line_intersects_line(p0, p1, bl, br)
}

/// Whether the segment from `p0` to `p1` crosses any edge of rectangle `r`.
pub fn segment_hits_rect(p0: Vec2I, p1: Vec2I, r: &RectI) -> (hit: bool)
    requires
        in_range(p0),
        in_range(p1),
        rect_in_range(*r),
    ensures
        hit == spec_segment_hits_rect(p0, p1, *r),
{
    let xr: i64 = r.x + r.w;
    let yb: i64 = r.y + r.h;
    let tl = Vec2I { x: r.x, y: r.y };
    let tr = Vec2I { x: xr, y: r.y };
    let bl = Vec2I { x: r.x, y: yb };
    let br = Vec2I { x: xr, y: yb };
    let left = line_intersects_line(p0, p1, tl, bl);
    let right = line_intersects_line(p0, p1, tr, br);
    let top = line_intersects_line(p0, p1, tl, tr);
    let bottom = line_intersects_line(p0, p1, bl, br);
    left || right || top || bottom
}

/// `r` is the floor of the square root of `n`.
pub open spec fn is_floor_sqrt(n: int, r: int) -> bool {
    &&& 0 <= r
    &&& r * r <= n
    &&& n < (r + 1) * (r + 1)
}

/// The floor of the square root, as a function; meaningful once a witness
/// shows one exists, and then unique by `lemma_floor_sqrt_agrees`.
pub open spec fn spec_floor_sqrt(n: int) -> int {
    choose|r: int| is_floor_sqrt(n, r)
}

/// Any witness of `is_floor_sqrt` is the value of `spec_floor_sqrt`.
pub proof fn lemma_floor_sqrt_agrees(n: int, r: int)
    requires
        is_floor_sqrt(n, r),
    ensures
        spec_floor_sqrt(n) == r,
{
    let r2 = choose|r2: int| is_floor_sqrt(n, r2);
    assert(is_floor_sqrt(n, r2));
    assert(r2 == r) by (nonlinear_arith)
        requires
            0 <= r,
            0 <= r2,
            r * r <= n < (r + 1) * (r + 1),
            r2 * r2 <= n < (r2 + 1) * (r2 + 1),
    ;
}

/// One component of a normalized vector: `c * 1000 / d` with the magnitude
/// truncated toward zero.
pub open spec fn spec_normalize_comp(c: int, d: int) -> int {
    if c >= 0 {
        c * 1000 / d
    } else {
        -((-c) * 1000 / d)
    }
}

/// The unit vector (in sub-units) along a non-zero `v`, componentwise
/// `c * 1000 / d` for the floor length `d`.
pub open spec fn spec_normalize(v: Vec2I) -> Vec2I {
    let d = spec_floor_sqrt(dist2(Vec2I { x: 0, y: 0 }, v));
    Vec2I {
        x: spec_normalize_comp(v.x as int, d) as i64,
        y: spec_normalize_comp(v.y as int, d) as i64,
    }
}

/// Scale a non-zero vector to (at most) unit length in sub-units: each
/// component becomes `c * 1000 / d` for the floor distance `d`.  The vector
/// may be the difference of two in-range points.
pub fn normalize_milli(v: Vec2I) -> (u: Vec2I)
    requires
        -2_000_000_000 <= v.x <= 2_000_000_000,
        -2_000_000_000 <= v.y <= 2_000_000_000,
        !(v.x == 0 && v.y == 0),
    ensures
        u == spec_normalize(v),
        -MILLI <= u.x <= MILLI,
        -MILLI <= u.y <= MILLI,
{
    let ghost zero = Vec2I { x: 0, y: 0 };
    proof {
        lemma_mul_bound(v.x as int, v.x as int, 2_000_000_000, 2_000_000_000);
        lemma_mul_bound(v.y as int, v.y as int, 2_000_000_000, 2_000_000_000);
        lemma_square_nonneg(v.x as int);
        lemma_square_nonneg(v.y as int);
        assert(dist2(zero, v) >= 1) by (nonlinear_arith)
            requires
                !(v.x == 0 && v.y == 0),
                dist2(zero, v) == v.x * v.x + v.y * v.y,
        ;
    }
    let s128: i128 = v.x as i128 * v.x as i128 + v.y as i128 * v.y as i128;
    assert(1 <= s128 <= 8_000_000_000_000_000_000);
    let sq: u64 = s128 as u64;
    assert(sq == dist2(zero, v));
    let dr: u64 = isqrt(sq);
    assert(1 <= dr <= 3_000_000_000) by (nonlinear_arith)
        requires
            dr * dr <= sq,
            sq < (dr + 1) * (dr + 1),
            sq <= 8_000_000_000_000_000_000u64,
            1 <= sq,
    ;
    let d: i64 = dr as i64;
    proof {
        assert(-d <= v.x <= d && -d <= v.y <= d) by (nonlinear_arith)
            requires
                v.x * v.x + v.y * v.y < (d + 1) * (d + 1),
                0 <= v.x * v.x,
                0 <= v.y * v.y,
                0 <= d,
        ;
        assert(forall|a: int, dd: int|
            0 <= a <= dd && 0 < dd ==> 0 <= #[trigger] (a * 1000 / dd) <= 1000)
            by (nonlinear_arith);
        assert(forall|a: int|
            0 <= a <= 2_000_000_000 ==> 0 <= #[trigger] (a * 1000) <= 2_000_000_000_000)
            by (nonlinear_arith);
    }
    let ux: i64 = if v.x >= 0 {
        v.x * 1000 / d
    } else {
        let m: i64 = (-v.x) * 1000 / d;
        -m
    };
    let uy: i64 = if v.y >= 0 {
        v.y * 1000 / d
    } else {
        let m: i64 = (-v.y) * 1000 / d;
        -m
    };
    let u = Vec2I { x: ux, y: uy };
    proof {
        lemma_floor_sqrt_agrees(dist2(zero, v), d as int);
    }
    u
}

} // verus!
