//! Rocks and shots.
use vstd::prelude::*;
use crate::angle::{wrap_angle, wrapped, TAU};
use crate::geometry::Point;
use crate::motion::{extent, wrap_point, wrap_position};
use crate::units::UNIT;

verus! {

/// No entity of a well-formed world lies further than this from the origin,
/// on either axis.
pub const POSITION_LIMIT: i64 = 0x2000_0000_0000;

/// No entity of a well-formed world moves faster than this per tick, on
/// either axis.
pub const VELOCITY_LIMIT: i64 = 0x100_0000_0000;

/// How far an asteroid travels past an edge before it reappears opposite.
pub const ASTEROID_MARGIN: u32 = 40_000;

/// How far an asteroid turns per tick.
pub const SPIN: i64 = 10;

/// Both components of `v` lie within `limit` of zero.
pub open spec fn within(v: (i64, i64), limit: i64) -> bool {
    -limit <= v.0 <= limit && -limit <= v.1 <= limit
}

/// `pos` moved by one tick at velocity `vel`.
pub open spec fn displaced(pos: (i64, i64), vel: (i64, i64)) -> (i64, i64) {
    ((pos.0 + vel.0) as i64, (pos.1 + vel.1) as i64)
}

/// `pos` lies inside the visible rectangle of the viewport, edges included.
pub open spec fn on_screen(pos: (i64, i64), viewport: (u32, u32)) -> bool {
    0 <= pos.0 <= extent(viewport.0) && 0 <= pos.1 <= extent(viewport.1)
}

/// Whether both components of `v` lie within `limit` of zero.
pub fn is_within(v: (i64, i64), limit: i64) -> (ok: bool)
    ensures
        ok == within(v, limit),
{
    let low: i128 = -(limit as i128);
    low <= v.0 as i128 && v.0 <= limit && low <= v.1 as i128 && v.1 <= limit
}

/// A half-open range `start..end` of fixed-point scalars.
#[derive(Clone, Copy, PartialEq, Eq, Structural, Debug)]
pub struct Span {
    pub start: i32,
    pub end: i32,
}

impl Span {
    /// `v` lies in the range: at or above `start`, below `end`.
    pub open spec fn contains(self, v: int) -> bool {
        self.start <= v < self.end
    }
}

/// Size class of an asteroid.
#[derive(Clone, Copy, PartialEq, Eq, Structural, Debug)]
pub enum AsteroidSize {
    Large,
    Medium,
}

impl AsteroidSize {
    /// The size class of the fragments that a destroyed rock of this class
    /// leaves, if it leaves any.
    pub open spec fn spec_next(self) -> Option<AsteroidSize> {
        match self {
            AsteroidSize::Large => Some(AsteroidSize::Medium),
            AsteroidSize::Medium => None,
        }
    }

    /// The scale factors, in thousandths, that a rock of this class may be
    /// given: 1.1 to 1.5 for a large one, 0.7 to 1.0 for a medium one.
    pub open spec fn spec_scale_range(self) -> Span {
        match self {
            AsteroidSize::Large => Span { start: 1100, end: 1500 },
            AsteroidSize::Medium => Span { start: 700, end: 1000 },
        }
    }

    /// The size class of the pieces of a destroyed rock of this class.
    #[verifier::when_used_as_spec(spec_next)]
    pub fn next(self) -> (r: Option<AsteroidSize>)
        ensures
            r == self.spec_next(),
    {
        match self {
            AsteroidSize::Large => Some(AsteroidSize::Medium),
            AsteroidSize::Medium => None,
        }
    }

    /// The scale factors that a rock of this class may be given.
    #[verifier::when_used_as_spec(spec_scale_range)]
    pub fn scale_range(self) -> (r: Span)
        ensures
            r == self.spec_scale_range(),
    {
        match self {
            AsteroidSize::Large => Span { start: 1100, end: 1500 },
            AsteroidSize::Medium => Span { start: 700, end: 1000 },
        }
    }
}

/// A shot in flight.
#[derive(Clone, Copy, PartialEq, Eq, Debug)]
pub struct Projectile {
    pub pos: (i64, i64),
    pub vel: (i64, i64),
    /// The ship's facing when the shot was fired; only its picture turns by it.
    pub angle: i64,
    pub radius: u32,
}

impl Projectile {
    /// Position and velocity are within their limits.
    pub open spec fn wf(self) -> bool {
        within(self.pos, POSITION_LIMIT) && within(self.vel, VELOCITY_LIMIT)
    }

    /// The shot one tick later: it flies straight on.
    pub open spec fn moved(self) -> Projectile {
        Projectile { pos: displaced(self.pos, self.vel), ..self }
    }

    /// Whether the shot is well formed.
    pub fn is_valid(&self) -> (ok: bool)
        ensures
            ok == self.wf(),
    {
        is_within(self.pos, POSITION_LIMIT) && is_within(self.vel, VELOCITY_LIMIT)
    }

    /// Moves the shot by its velocity.
    pub fn advance(&mut self)
        requires
            old(self).wf(),
        ensures
            *final(self) == old(self).moved(),
    {
        self.pos.0 = self.pos.0 + self.vel.0;
        self.pos.1 = self.pos.1 + self.vel.1;
    }

    /// Whether the shot is inside the viewport, edges included.
    pub fn is_on_screen(&self, viewport: (u32, u32)) -> (ok: bool)
        ensures
            ok == on_screen(self.pos, viewport),
    {
        let w: i64 = (viewport.0 as i64) * UNIT;
        let h: i64 = (viewport.1 as i64) * UNIT;
        0 <= self.pos.0 && self.pos.0 <= w && 0 <= self.pos.1 && self.pos.1 <= h
    }
}

/// A rock.
#[derive(PartialEq, Eq, Debug)]
pub struct Asteroid {
    pub pos: (i64, i64),
    pub vel: (i64, i64),
    pub angle: i64,
    /// The outline, a closed polygon of offsets from the rock's position.
    pub shape: Vec<Point>,
    /// The collision radius, fixed when the rock is made.
    pub radius: u32,
    pub size: AsteroidSize,
}

impl Asteroid {
    /// Position and velocity are within their limits, and the rotation is
    /// within the full turn.
    pub open spec fn wf(self) -> bool {
        &&& within(self.pos, POSITION_LIMIT)
        &&& within(self.vel, VELOCITY_LIMIT)
        &&& 0 <= self.angle < TAU
    }

    /// The rock one tick later: moved by its velocity, turned by `SPIN`, and
    /// wrapped around the viewport. Outline, radius and size stay.
    pub open spec fn drifted(self, viewport: (u32, u32)) -> Asteroid {
        let landed = wrap_point(displaced(self.pos, self.vel), viewport, ASTEROID_MARGIN);
        Asteroid {
            pos: (landed.0 as i64, landed.1 as i64),
            angle: wrapped(self.angle + SPIN) as i64,
            ..self
        }
    }

    /// Whether the rock is well formed.
    pub fn is_valid(&self) -> (ok: bool)
        ensures
            ok == self.wf(),
    {
        is_within(self.pos, POSITION_LIMIT) && is_within(self.vel, VELOCITY_LIMIT) && 0 <= self.angle
            && self.angle < TAU
    }

    /// Moves the rock by its velocity, turns it and wraps it around the
    /// viewport.
    pub fn advance(&mut self, viewport: (u32, u32))
        requires
            old(self).wf(),
        ensures
            *final(self) == old(self).drifted(viewport),
            final(self).wf(),
            -ASTEROID_MARGIN <= final(self).pos.0 <= extent(viewport.0) + ASTEROID_MARGIN,
            -ASTEROID_MARGIN <= final(self).pos.1 <= extent(viewport.1) + ASTEROID_MARGIN,
    {
        self.pos.0 = self.pos.0 + self.vel.0;
        self.pos.1 = self.pos.1 + self.vel.1;
        self.angle = wrap_angle(self.angle + SPIN);
        wrap_position(&mut self.pos, viewport, ASTEROID_MARGIN);
    }
}

/// Every rock of `rocks` is well formed.
pub open spec fn rocks_wf(rocks: Seq<Asteroid>) -> bool {
    forall|i: int| 0 <= i < rocks.len() ==> (#[trigger] rocks[i]).wf()
}

/// Every shot of `shots` is well formed.
pub open spec fn shots_wf(shots: Seq<Projectile>) -> bool {
    forall|i: int| 0 <= i < shots.len() ==> (#[trigger] shots[i]).wf()
}

} // verus!
