//! Where, how fast and how large new rocks come into being.
use vstd::prelude::*;
use rand::rngs::StdRng;
use crate::angle::TAU;
use crate::chance::{draw, draw_index};
use crate::entity::{Asteroid, AsteroidSize, Span};
use crate::geometry::{bounding_radius, is_bounding_radius, scale_outline, scaled, Point};
use crate::motion::{extent, heading_vector, launch_velocity};
use crate::units::UNIT;

verus! {

/// A coordinate along a viewport edge of `dim` pixels: from zero up to, but
/// not including, the far end; zero where the edge has no length.
pub open spec fn along_ok(along: int, dim: u32) -> bool {
    0 <= along && (along < extent(dim) || along == 0)
}

/// The point `along` the viewport edge number `edge` (0 left, 1 right, 2 top,
/// anything else bottom), moved outward by `margin`.
pub open spec fn edge_point(edge: int, along: int, viewport: (u32, u32), margin: u32) -> (int, int) {
    if edge == 0 {
        (-margin, along)
    } else if edge == 1 {
        (extent(viewport.0) + margin, along)
    } else if edge == 2 {
        (along, -margin)
    } else {
        (along, extent(viewport.1) + margin)
    }
}

/// `p` lies `margin` outside one of the four viewport edges, somewhere along
/// that edge.
pub open spec fn is_spawn_point(p: (i64, i64), viewport: (u32, u32), margin: u32) -> bool {
    ||| (p.0 == -margin || p.0 == extent(viewport.0) + margin) && along_ok(p.1 as int, viewport.1)
    ||| (p.1 == -margin || p.1 == extent(viewport.1) + margin) && along_ok(p.0 as int, viewport.0)
}

/// `v` is a launch velocity at some angle of the full turn and some speed of
/// `speed_range`.
pub open spec fn is_random_velocity(v: (i64, i64), speed_range: Span) -> bool {
    exists|angle: int, speed: int|
        0 <= angle < TAU && speed_range.contains(speed) && (v.0 as int, v.1 as int) == #[trigger] heading_vector(
            angle,
            speed,
        )
}

/// `shape` is `base` scaled by `scale`, point for point.
pub open spec fn is_scaled_outline(shape: Seq<Point>, base: Seq<Point>, scale: int) -> bool {
    &&& shape.len() == base.len()
    &&& forall|i: int| 0 <= i < base.len() ==> #[trigger] shape[i] == scaled(base[i], scale)
}

/// `radius` is the bounding radius of `shape`; one too large for the type is
/// held at the largest radius there is.
pub open spec fn is_collision_radius(shape: Seq<Point>, radius: u32) -> bool {
    exists|r: int|
        #[trigger] is_bounding_radius(shape, r) && radius == if r > u32::MAX {
            u32::MAX as int
        } else {
            r
        }
}

/// `shape` is one of the outlines of `shapes`, scaled by a factor that the
/// size class allows.
pub open spec fn is_drawn_outline(shape: Seq<Point>, shapes: Seq<Vec<Point>>, size: AsteroidSize) -> bool {
    exists|k: int, scale: int|
        0 <= k < shapes.len() && size.scale_range().contains(scale) && #[trigger] is_scaled_outline(
            shape,
            shapes[k]@,
            scale,
        )
}

impl Asteroid {
    /// This is the rock made from the outline `base` at the scale `scale`,
    /// with everything else as given: its radius is derived from the scaled
    /// outline.
    pub open spec fn is_cast(
        self,
        base: Seq<Point>,
        size: AsteroidSize,
        pos: (i64, i64),
        vel: (i64, i64),
        angle: i64,
        scale: int,
    ) -> bool {
        &&& self.pos == pos
        &&& self.vel == vel
        &&& self.angle == angle
        &&& self.size == size
        &&& is_scaled_outline(self.shape@, base, scale)
        &&& is_collision_radius(self.shape@, self.radius)
    }

    /// This is a rock of class `size` at `pos` whose velocity, rotation,
    /// outline and scale are some of those that a random spawn can give.
    pub open spec fn is_spawned(
        self,
        size: AsteroidSize,
        pos: (i64, i64),
        shapes: Seq<Vec<Point>>,
        speed_range: Span,
    ) -> bool {
        &&& self.pos == pos
        &&& self.size == size
        &&& 0 <= self.angle < TAU
        &&& is_random_velocity(self.vel, speed_range)
        &&& is_drawn_outline(self.shape@, shapes, size)
        &&& is_collision_radius(self.shape@, self.radius)
    }

    /// Makes a rock from the outline `base_shape` at the scale `scale`.
    pub fn cast(
        base_shape: &[Point],
        size: AsteroidSize,
        pos: (i64, i64),
        vel: (i64, i64),
        angle: i64,
        scale: i32,
    ) -> (a: Asteroid)
        ensures
            a.is_cast(base_shape@, size, pos, vel, angle, scale as int),
    {
        let shape = scale_outline(base_shape, scale);
        let reach: u64 = bounding_radius(shape.as_slice());
        let radius: u32 = if reach > 0xffff_ffff {
            0xffff_ffff
        } else {
            reach as u32
        };
        Asteroid { pos, vel, angle, shape, radius, size }
    }
}

/// The point `along` the viewport edge number `edge`, moved outward by
/// `margin`.
pub fn spawn_point_on(edge: i64, along: i64, viewport: (u32, u32), margin: u32) -> (p: (i64, i64))
    ensures
        (p.0 as int, p.1 as int) == edge_point(edge as int, along as int, viewport, margin),
{
    let w: i64 = (viewport.0 as i64) * UNIT;
    let h: i64 = (viewport.1 as i64) * UNIT;
    let m: i64 = margin as i64;
    if edge == 0 {
        (-m, along)
    } else if edge == 1 {
        (w + m, along)
    } else if edge == 2 {
        (along, -m)
    } else {
        (along, h + m)
    }
}

/// Picks an edge of the viewport at random, then a point along it at random,
/// `margin` outside the viewport.
pub fn pick_spawn_point(rng: &mut StdRng, viewport: (u32, u32), margin: u32) -> (p: (i64, i64))
    ensures
        is_spawn_point(p, viewport, margin),
{
    let edge: i64 = draw(rng, 0, 4);
    let dim: u32 = if edge < 2 {
        viewport.1
    } else {
        viewport.0
    };
    let along: i64 = if dim == 0 {
        0
    } else {
        draw(rng, 0, (dim as i64) * UNIT)
    };
    spawn_point_on(edge, along, viewport, margin)
}

/// Picks a direction and a speed of `speed_range` at random.
pub fn pick_random_velocity(rng: &mut StdRng, speed_range: Span) -> (v: (i64, i64))
    requires
        speed_range.start < speed_range.end,
    ensures
        is_random_velocity(v, speed_range),
{
    let angle: i64 = draw(rng, 0, TAU);
    let speed: i64 = draw(rng, speed_range.start as i64, speed_range.end as i64);
    let v = launch_velocity(angle, speed as i32);
    assert((v.0 as int, v.1 as int) == heading_vector(angle as int, speed as int));
    v
}

/// Picks a scale factor for a rock of class `size` at random.
pub fn pick_scale(rng: &mut StdRng, size: AsteroidSize) -> (scale: i32)
    ensures
        size.scale_range().contains(scale as int),
{
    let range = size.scale_range();
    draw(rng, range.start as i64, range.end as i64) as i32
}

/// Makes a rock of class `size` from the outline `base_shape`, at a scale
/// picked at random among those of its class.
pub fn spawn_asteroid(
    base_shape: &[Point],
    size: AsteroidSize,
    pos: (i64, i64),
    vel: (i64, i64),
    angle: i64,
    rng: &mut StdRng,
) -> (a: Asteroid)
    ensures
        exists|scale: int|
            size.scale_range().contains(scale) && #[trigger] a.is_cast(base_shape@, size, pos, vel, angle, scale),
{
    let scale: i32 = pick_scale(rng, size);
    let a = Asteroid::cast(base_shape, size, pos, vel, angle, scale);
    assert(a.is_cast(base_shape@, size, pos, vel, angle, scale as int));
    a
}

/// Makes a rock of class `size` at `pos`, with outline, velocity, rotation
/// and scale picked at random.
pub fn spawn_at(
    rng: &mut StdRng,
    shapes: &[Vec<Point>],
    size: AsteroidSize,
    pos: (i64, i64),
    speed_range: Span,
) -> (a: Asteroid)
    requires
        shapes@.len() > 0,
        speed_range.start < speed_range.end,
    ensures
        a.is_spawned(size, pos, shapes@, speed_range),
{
    let k: usize = draw_index(rng, shapes.len());
    let vel = pick_random_velocity(rng, speed_range);
    let angle: i64 = draw(rng, 0, TAU);
    let a = spawn_asteroid(shapes[k].as_slice(), size, pos, vel, angle, rng);
    proof {
        let scale = choose|scale: int|
            size.scale_range().contains(scale) && #[trigger] a.is_cast(shapes@[k as int]@, size, pos, vel, angle, scale);
        assert(is_scaled_outline(a.shape@, shapes@[k as int]@, scale));
    }
    a
}

/// The pieces that a destroyed rock breaks into: two of the next smaller
/// class where it lies, each with its own random outline, velocity, rotation
/// and scale; none for a rock of the smallest class.
pub fn split_asteroid(
    asteroid: &Asteroid,
    rng: &mut StdRng,
    shapes: &[Vec<Point>],
    speed_range: Span,
) -> (pieces: Vec<Asteroid>)
    requires
        asteroid.size.next().is_some() ==> shapes@.len() > 0 && speed_range.start < speed_range.end,
    ensures
        match asteroid.size.next() {
            Some(next_size) => {
                &&& pieces@.len() == 2
                &&& pieces@[0].is_spawned(next_size, asteroid.pos, shapes@, speed_range)
                &&& pieces@[1].is_spawned(next_size, asteroid.pos, shapes@, speed_range)
            },
            None => pieces@.len() == 0,
        },
{
    let mut pieces: Vec<Asteroid> = Vec::new();
    if let Some(next_size) = asteroid.size.next() {
        let first = spawn_at(rng, shapes, next_size, asteroid.pos, speed_range);
        pieces.push(first);
        let second = spawn_at(rng, shapes, next_size, asteroid.pos, speed_range);
        pieces.push(second);
    }
    pieces
}

} // verus!
