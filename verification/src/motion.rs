//! Circles that collide, positions that wrap around the viewport or follow
//! its resizing, and launch velocities.
use vstd::prelude::*;
use crate::angle::{cosine, lemma_sine_cosine_bounds, sin_cos, sine};
use crate::units::{fixed_mul, lemma_round_div_within, mul_round, UNIT};

verus! {

/// The extent of a viewport dimension of `dim` pixels, in thousandths.
pub open spec fn extent(dim: u32) -> int {
    dim * UNIT
}

/// The middle of a viewport dimension of `dim` pixels, in thousandths.
pub open spec fn center(dim: u32) -> int {
    dim * (UNIT / 2)
}

/// Two circles overlap when the squared distance of their centers is at most
/// the squared sum of their radii; circles that just touch overlap.
pub open spec fn collides(a_pos: (i64, i64), a_radius: u32, b_pos: (i64, i64), b_radius: u32) -> bool {
    let dx = a_pos.0 - b_pos.0;
    let dy = a_pos.1 - b_pos.1;
    let sum = a_radius + b_radius;
    dx * dx + dy * dy <= sum * sum
}

/// Where a coordinate `v` lands once wrapped along a dimension of `dim`
/// pixels with an off-screen `margin`: below `-margin` it reappears at the far
/// side, above `extent + margin` at the near side.
pub open spec fn wrap_coord(v: int, dim: u32, margin: u32) -> int {
    if v < -margin {
        extent(dim) + margin
    } else if v > extent(dim) + margin {
        -margin
    } else {
        v
    }
}

/// A position wrapped along both axes.
pub open spec fn wrap_point(pos: (i64, i64), viewport: (u32, u32), margin: u32) -> (int, int) {
    (wrap_coord(pos.0 as int, viewport.0, margin), wrap_coord(pos.1 as int, viewport.1, margin))
}

/// Where a coordinate lands when the viewport dimension changes from
/// `old_dim` to `new_dim`: at the same offset from the new center as it had
/// from the old one.
pub open spec fn reanchored(v: int, old_dim: u32, new_dim: u32) -> int {
    center(new_dim) + (v - center(old_dim))
}

/// The velocity of something launched at `speed` in the direction `angle`,
/// where the angle zero points up the screen.
pub open spec fn heading_vector(angle: int, speed: int) -> (int, int) {
    (fixed_mul(speed, sine(angle)), -fixed_mul(speed, cosine(angle)))
}

/// Neither component of a launch velocity exceeds the speed.
pub proof fn lemma_heading_vector_bound(angle: int, speed: int)
    ensures
        speed >= 0 ==> -speed <= heading_vector(angle, speed).0 <= speed,
        speed >= 0 ==> -speed <= heading_vector(angle, speed).1 <= speed,
        speed <= 0 ==> speed <= heading_vector(angle, speed).0 <= -speed,
        speed <= 0 ==> speed <= heading_vector(angle, speed).1 <= -speed,
{
    lemma_sine_cosine_bounds(angle);
    let s = sine(angle);
    let c = cosine(angle);
    let m = if speed >= 0 { speed } else { -speed };
    assert(-(m * UNIT) <= speed * s <= m * UNIT && -(m * UNIT) <= speed * c <= m * UNIT) by (nonlinear_arith)
        requires
            -UNIT <= s <= UNIT,
            -UNIT <= c <= UNIT,
            m == speed || m == -speed,
            m >= 0,
    ;
    lemma_round_div_within(speed * s, UNIT as int, m);
    lemma_round_div_within(speed * c, UNIT as int, m);
}

/// The collision test does not depend on the order of the two circles.
pub proof fn lemma_collision_symmetric(a_pos: (i64, i64), a_radius: u32, b_pos: (i64, i64), b_radius: u32)
    ensures
        collides(a_pos, a_radius, b_pos, b_radius) == collides(b_pos, b_radius, a_pos, a_radius),
{
    let dx = a_pos.0 - b_pos.0;
    let dy = a_pos.1 - b_pos.1;
    assert(dx * dx == (-dx) * (-dx)) by (nonlinear_arith);
    assert(dy * dy == (-dy) * (-dy)) by (nonlinear_arith);
}

/// Two circles whose centers lie exactly the sum of their radii apart
/// collide: the boundary is inclusive.
pub proof fn lemma_touching_circles_collide(a_pos: (i64, i64), a_radius: u32, b_pos: (i64, i64), b_radius: u32)
    requires
        (a_pos.0 - b_pos.0) * (a_pos.0 - b_pos.0) + (a_pos.1 - b_pos.1) * (a_pos.1 - b_pos.1) == (a_radius
            + b_radius) * (a_radius + b_radius),
    ensures
        collides(a_pos, a_radius, b_pos, b_radius),
{
}

/// A wrapped coordinate lies between `-margin` and `extent + margin`.
pub proof fn lemma_wrap_within(v: int, dim: u32, margin: u32)
    ensures
        -margin <= wrap_coord(v, dim, margin) <= extent(dim) + margin,
{
}

/// Reanchoring keeps the offset from the center, so a coordinate at the old
/// center lands at the new center.
pub proof fn lemma_reanchor_keeps_offset(v: int, old_dim: u32, new_dim: u32)
    ensures
        reanchored(v, old_dim, new_dim) - center(new_dim) == v - center(old_dim),
        v == center(old_dim) ==> reanchored(v, old_dim, new_dim) == center(new_dim),
{
}

/// The velocity of something launched at `speed` in the direction `angle`.
pub fn launch_velocity(angle: i64, speed: i32) -> (v: (i64, i64))
    ensures
        (v.0 as int, v.1 as int) == heading_vector(angle as int, speed as int),
        -0x8000_0000 <= v.0 <= 0x8000_0000,
        -0x8000_0000 <= v.1 <= 0x8000_0000,
{
    proof {
        lemma_heading_vector_bound(angle as int, speed as int);
    }
    let (sin_a, cos_a) = sin_cos(angle);
    (mul_round(speed, sin_a as i32), -mul_round(speed, cos_a as i32))
}

/// The distance between two coordinates.
fn gap(a: i64, b: i64) -> (d: u128)
    ensures
        d == if a >= b { a - b } else { b - a },
{
    if a >= b {
        ((a as i128) - (b as i128)) as u128
    } else {
        ((b as i128) - (a as i128)) as u128
    }
}

/// Whether two circles overlap.
pub fn check_collision(a_pos: (i64, i64), a_radius: u32, b_pos: (i64, i64), b_radius: u32) -> (hit: bool)
    ensures
        hit == collides(a_pos, a_radius, b_pos, b_radius),
{
    let dx: u128 = gap(a_pos.0, b_pos.0);
    let dy: u128 = gap(a_pos.1, b_pos.1);
    let sum: u128 = a_radius as u128 + b_radius as u128;
    let ghost sx = a_pos.0 - b_pos.0;
    let ghost sy = a_pos.1 - b_pos.1;
    proof {
        assert(sx * sx == dx * dx && sy * sy == dy * dy) by (nonlinear_arith)
            requires
                dx == sx || dx == -sx,
                dy == sy || dy == -sy,
        ;
        assert(sum * sum <= 0x4_0000_0000_0000_0000) by (nonlinear_arith)
            requires
                0 <= sum <= 0x2_0000_0000,
        ;
    }
    if dx > sum || dy > sum {
        proof {
            assert(dx * dx + dy * dy > sum * sum) by (nonlinear_arith)
                requires
                    dx > sum || dy > sum,
                    dx >= 0,
                    dy >= 0,
                    sum >= 0,
            ;
        }
        false
    } else {
        proof {
            assert(dx * dx <= sum * sum && dy * dy <= sum * sum) by (nonlinear_arith)
                requires
                    0 <= dx <= sum,
                    0 <= dy <= sum,
            ;
        }
        dx * dx + dy * dy <= sum * sum
    }
}

/// Wraps one coordinate.
fn wrap_axis(v: i64, dim: u32, margin: u32) -> (r: i64)
    ensures
        r == wrap_coord(v as int, dim, margin),
{
    let far: i64 = (dim as i64) * UNIT + (margin as i64);
    let near: i64 = -(margin as i64);
    if v < near {
        far
    } else if v > far {
        near
    } else {
        v
    }
}

/// Wraps a position around the viewport: a coordinate that has passed an
/// edge by more than `margin` reappears just as far beyond the opposite edge.
/// The two axes are wrapped independently.
pub fn wrap_position(pos: &mut (i64, i64), viewport: (u32, u32), margin: u32)
    ensures
        final(pos).0 == wrap_coord(old(pos).0 as int, viewport.0, margin),
        final(pos).1 == wrap_coord(old(pos).1 as int, viewport.1, margin),
        -margin <= final(pos).0 <= extent(viewport.0) + margin,
        -margin <= final(pos).1 <= extent(viewport.1) + margin,
{
    pos.0 = wrap_axis(pos.0, viewport.0, margin);
    pos.1 = wrap_axis(pos.1, viewport.1, margin);
}

/// Wraps the ship's position, given as two separate coordinates.
pub fn wrap_player(px: &mut i64, py: &mut i64, viewport: (u32, u32), margin: u32)
    ensures
        *final(px) == wrap_coord(*old(px) as int, viewport.0, margin),
        *final(py) == wrap_coord(*old(py) as int, viewport.1, margin),
        -margin <= *final(px) <= extent(viewport.0) + margin,
        -margin <= *final(py) <= extent(viewport.1) + margin,
{
    let mut p: (i64, i64) = (*px, *py);
    wrap_position(&mut p, viewport, margin);
    *px = p.0;
    *py = p.1;
}

/// Whether a coordinate can be reanchored without leaving the range of the
/// machine integers.
pub open spec fn can_reanchor(v: int, old_dim: u32, new_dim: u32) -> bool {
    i64::MIN <= reanchored(v, old_dim, new_dim) <= i64::MAX
}

/// Follows a change of the viewport: the position keeps its offset from the
/// center of the viewport.
pub fn adjust_pos_for_resize(px: &mut i64, py: &mut i64, old_viewport: (u32, u32), new_viewport: (u32, u32))
    requires
        can_reanchor(*old(px) as int, old_viewport.0, new_viewport.0),
        can_reanchor(*old(py) as int, old_viewport.1, new_viewport.1),
    ensures
        *final(px) == reanchored(*old(px) as int, old_viewport.0, new_viewport.0),
        *final(py) == reanchored(*old(py) as int, old_viewport.1, new_viewport.1),
{
    let shift_x: i64 = (new_viewport.0 as i64) * (UNIT / 2) - (old_viewport.0 as i64) * (UNIT / 2);
    let shift_y: i64 = (new_viewport.1 as i64) * (UNIT / 2) - (old_viewport.1 as i64) * (UNIT / 2);
    *px = *px + shift_x;
    *py = *py + shift_y;
}

} // verus!
