//! Points and outlines: moving, scaling and turning them, and their reach.
use vstd::prelude::*;
use crate::angle::{cosine, sin_cos, sine};
use crate::units::{
    clamp, div_round, fixed_mul, floor_sqrt, is_floor_sqrt, lemma_floor_sqrt_unique, mul_round, round_div, UNIT,
};

verus! {

/// Largest coordinate a point can hold.
pub const COORD_MAX: i32 = 0x3fff_ffff;

/// Smallest coordinate a point can hold.
pub const COORD_MIN: i32 = -0x4000_0000;

/// A point of an outline or of the screen, in whole pixels.
#[derive(Clone, Copy, PartialEq, Eq, Structural, Debug)]
pub struct Point {
    pub x: i32,
    pub y: i32,
}

/// The coordinate nearest to `v` that a point can hold.
pub open spec fn clamp_coord(v: int) -> i32 {
    clamp(v, COORD_MIN as int, COORD_MAX as int) as i32
}

impl Point {
    /// The point nearest to the mathematical position `(x, y)`.
    pub open spec fn at(x: int, y: int) -> Point {
        Point { x: clamp_coord(x), y: clamp_coord(y) }
    }

    /// Squared distance from the origin.
    pub open spec fn norm_sq(self) -> int {
        self.x * self.x + self.y * self.y
    }

    /// A point from its coordinates, each held to the range from `COORD_MIN`
    /// to `COORD_MAX`.
    pub fn new(x: i32, y: i32) -> (p: Point)
        ensures
            p == Point::at(x as int, y as int),
    {
        Point::nearest(x as i64, y as i64)
    }

    /// The point nearest to `(x, y)` that the coordinate range allows.
    pub fn nearest(x: i64, y: i64) -> (p: Point)
        ensures
            p == Point::at(x as int, y as int),
    {
        let cx: i64 = if x < COORD_MIN as i64 {
            COORD_MIN as i64
        } else if x > COORD_MAX as i64 {
            COORD_MAX as i64
        } else {
            x
        };
        let cy: i64 = if y < COORD_MIN as i64 {
            COORD_MIN as i64
        } else if y > COORD_MAX as i64 {
            COORD_MAX as i64
        } else {
            y
        };
        Point { x: cx as i32, y: cy as i32 }
    }
}

/// `p` moved by `offset`.
pub open spec fn shifted(p: Point, offset: Point) -> Point {
    Point::at(p.x + offset.x, p.y + offset.y)
}

/// `p` scaled about the origin by the fixed-point `factor`.
pub open spec fn scaled(p: Point, factor: int) -> Point {
    Point::at(fixed_mul(p.x as int, factor), fixed_mul(p.y as int, factor))
}

/// `p` turned about the origin by `angle`.
pub open spec fn turned(p: Point, angle: int) -> Point {
    Point::at(
        round_div(p.x * cosine(angle) - p.y * sine(angle), UNIT as int),
        round_div(p.x * sine(angle) + p.y * cosine(angle), UNIT as int),
    )
}

/// `m` is the largest squared distance from the origin among `points`, or
/// zero when there are none.
pub open spec fn is_farthest_sq(points: Seq<Point>, m: int) -> bool {
    &&& forall|i: int| 0 <= i < points.len() ==> #[trigger] points[i].norm_sq() <= m
    &&& points.len() == 0 ==> m == 0
    &&& points.len() > 0 ==> exists|i: int| 0 <= i < points.len() && #[trigger] points[i].norm_sq() == m
}

/// `r` is the bounding radius of `points` in thousandths of a pixel, rounded
/// down: the distance from the origin to the farthest point.
pub open spec fn is_bounding_radius(points: Seq<Point>, r: int) -> bool {
    exists|m: int| is_farthest_sq(points, m) && #[trigger] is_floor_sqrt(UNIT * UNIT * m, r)
}

/// An outline has only one bounding radius.
pub proof fn lemma_bounding_radius_unique(points: Seq<Point>, r: int, s: int)
    requires
        is_bounding_radius(points, r),
        is_bounding_radius(points, s),
    ensures
        r == s,
{
    let m = choose|m: int| is_farthest_sq(points, m) && #[trigger] is_floor_sqrt(UNIT * UNIT * m, r);
    let k = choose|k: int| is_farthest_sq(points, k) && #[trigger] is_floor_sqrt(UNIT * UNIT * k, s);
    if points.len() > 0 {
        let i = choose|i: int| 0 <= i < points.len() && #[trigger] points[i].norm_sq() == m;
        let j = choose|j: int| 0 <= j < points.len() && #[trigger] points[j].norm_sq() == k;
        assert(points[i].norm_sq() <= k && points[j].norm_sq() <= m);
    }
    assert(m == k);
    lemma_floor_sqrt_unique(UNIT * UNIT * m, r, s);
}

/// Every point moved by `offset`.
pub fn translate_coords_to_pos(points: &[Point], offset: Point) -> (out: Vec<Point>)
    ensures
        out@.len() == points@.len(),
        forall|i: int| 0 <= i < points@.len() ==> #[trigger] out@[i] == shifted(points@[i], offset),
{
    let mut out: Vec<Point> = Vec::new();
    let mut i: usize = 0;
    while i < points.len()
        invariant
            i <= points@.len(),
            out@.len() == i,
            forall|j: int| 0 <= j < i ==> #[trigger] out@[j] == shifted(points@[j], offset),
        decreases points@.len() - i,
    {
        let p = points[i];
        out.push(Point::nearest(p.x as i64 + offset.x as i64, p.y as i64 + offset.y as i64));
        i += 1;
    }
    out
}

/// Every point scaled about the origin by `scale`, a factor in thousandths,
/// and rounded to whole pixels.
pub fn scale_outline(points: &[Point], scale: i32) -> (out: Vec<Point>)
    ensures
        out@.len() == points@.len(),
        forall|i: int| 0 <= i < points@.len() ==> #[trigger] out@[i] == scaled(points@[i], scale as int),
{
    let mut out: Vec<Point> = Vec::new();
    let mut i: usize = 0;
    while i < points.len()
        invariant
            i <= points@.len(),
            out@.len() == i,
            forall|j: int| 0 <= j < i ==> #[trigger] out@[j] == scaled(points@[j], scale as int),
        decreases points@.len() - i,
    {
        let p = points[i];
        out.push(Point::nearest(mul_round(p.x, scale), mul_round(p.y, scale)));
        i += 1;
    }
    out
}

/// Every point turned about the origin by `angle`, in thousandths of a
/// radian, and rounded to whole pixels.
pub fn rotate(points: &[Point], angle: i64) -> (out: Vec<Point>)
    ensures
        out@.len() == points@.len(),
        forall|i: int| 0 <= i < points@.len() ==> #[trigger] out@[i] == turned(points@[i], angle as int),
{
    let (sin_a, cos_a) = sin_cos(angle);
    let mut out: Vec<Point> = Vec::new();
    let mut i: usize = 0;
    while i < points.len()
        invariant
            i <= points@.len(),
            out@.len() == i,
            sin_a == sine(angle as int),
            cos_a == cosine(angle as int),
            -UNIT <= sin_a <= UNIT,
            -UNIT <= cos_a <= UNIT,
            forall|j: int| 0 <= j < i ==> #[trigger] out@[j] == turned(points@[j], angle as int),
        decreases points@.len() - i,
    {
        let p = points[i];
        let x: i64 = p.x as i64;
        let y: i64 = p.y as i64;
        assert(-0x8000_0000 * 1000 <= x * cos_a <= 0x8000_0000 * 1000
            && -0x8000_0000 * 1000 <= y * sin_a <= 0x8000_0000 * 1000
            && -0x8000_0000 * 1000 <= x * sin_a <= 0x8000_0000 * 1000
            && -0x8000_0000 * 1000 <= y * cos_a <= 0x8000_0000 * 1000) by (nonlinear_arith)
            requires
                -0x8000_0000 <= x <= 0x8000_0000,
                -0x8000_0000 <= y <= 0x8000_0000,
                -1000 <= sin_a <= 1000,
                -1000 <= cos_a <= 1000,
        ;
        let rot_x: i64 = div_round(x * cos_a - y * sin_a, UNIT);
        let rot_y: i64 = div_round(x * sin_a + y * cos_a, UNIT);
        out.push(Point::nearest(rot_x, rot_y));
        i += 1;
    }
    out
}

/// The bounding radius of an outline, in thousandths of a pixel and rounded
/// down: the distance from the origin to its farthest point, zero for an
/// empty outline.
pub fn bounding_radius(points: &[Point]) -> (r: u64)
    ensures
        is_bounding_radius(points@, r as int),
{
    let mut best: u64 = 0;
    let mut i: usize = 0;
    while i < points.len()
        invariant
            i <= points@.len(),
            is_farthest_sq(points@.subrange(0, i as int), best as int),
            best <= 0x8000_0000_0000_0000,
        decreases points@.len() - i,
    {
        let p = points[i];
        let x: i64 = p.x as i64;
        let y: i64 = p.y as i64;
        assert(0 <= x * x <= 0x4000_0000_0000_0000 && 0 <= y * y <= 0x4000_0000_0000_0000)
            by (nonlinear_arith)
            requires
                -0x8000_0000 <= x <= 0x8000_0000,
                -0x8000_0000 <= y <= 0x8000_0000,
        ;
        let d: u64 = (x * x) as u64 + (y * y) as u64;
        let ghost before = points@.subrange(0, i as int);
        let ghost after = points@.subrange(0, i + 1);
        let ghost old_best = best as int;
        if d > best {
            best = d;
        }
        proof {
            assert forall|j: int| 0 <= j < after.len() implies #[trigger] after[j].norm_sq() <= best by {
                if j < i {
                    assert(after[j] == before[j]);
                }
            }
            if d > old_best || i == 0 {
                assert(after[i as int].norm_sq() == best);
            } else {
                let k = choose|k: int| 0 <= k < before.len() && #[trigger] before[k].norm_sq() == old_best;
                assert(after[k].norm_sq() == best);
            }
        }
        i += 1;
    }
    assert(points@.subrange(0, i as int) =~= points@);
    let wide: u128 = 1_000_000 * (best as u128);
    let r: u64 = floor_sqrt(wide);
    assert(is_floor_sqrt(UNIT * UNIT * (best as int), r as int));
    r
}

} // verus!
