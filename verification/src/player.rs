//! The ship: movement, damage and the invulnerability window.
use vstd::prelude::*;
use crate::angle::{wrap_angle, wrapped, TAU};
use crate::entity::{displaced, is_within, within, VELOCITY_LIMIT};
use crate::motion::{
    adjust_pos_for_resize, center, extent, heading_vector, launch_velocity, reanchored, wrap_player, wrap_point,
};
use crate::units::{clamp, clamp_to, div_trunc, trunc_div, UNIT};

verus! {

/// Collision radius of the ship.
pub const SHIP_RADIUS: u32 = 10_000;

/// How far the ship turns per tick while a turn intent is active.
pub const TURN_SPEED: i64 = 70;

/// Speed gained per tick of thrust, along the facing direction.
pub const ACCELERATION: i32 = 200;

/// Percentage of its velocity that the ship keeps per tick without thrust.
pub const DRAG_PERCENT: i64 = 98;

/// Health of a fresh ship.
pub const FULL_HEALTH: u32 = 3;

/// For how long after a hit the ship takes no further damage, in
/// milliseconds.
pub const IFRAME_MS: u64 = 800;

/// Length of one phase of the blink of an invulnerable ship, in milliseconds.
pub const BLINK_MS: u64 = 100;

/// The ship reappears as soon as it crosses an edge.
pub const PLAYER_MARGIN: u32 = 0;

/// The ship of a well-formed world lies no further than this from the center
/// of the viewport, on either axis: half the widest viewport.
pub const HALF_SPAN_MAX: i64 = 2_147_483_647_500;

/// Milliseconds from `last_hit` to `now`; zero if `now` is the earlier one.
pub open spec fn elapsed_since(last_hit: u64, now: u64) -> int {
    if now >= last_hit {
        now - last_hit
    } else {
        0
    }
}

/// A velocity component after a push, held to the velocity limit.
pub open spec fn boosted(v: int, push: int) -> int {
    clamp(v + push, -VELOCITY_LIMIT, VELOCITY_LIMIT as int)
}

/// A velocity component after one tick of drag, rounded toward zero.
pub open spec fn dragged(v: int) -> int {
    trunc_div(v * DRAG_PERCENT, 100)
}

/// The player's ship.
#[derive(Clone, Copy, PartialEq, Eq, Debug)]
pub struct Player {
    pub pos: (i64, i64),
    pub vel: (i64, i64),
    /// Facing, in thousandths of a radian; zero points up the screen.
    pub angle: i64,
    pub health: u32,
    pub score: u64,
    /// When the ship last took damage, in milliseconds of the caller's
    /// clock; `None` if it has not since it was last reset.
    pub last_hit: Option<u64>,
}

impl Player {
    /// A ship as it starts: at rest in the middle of the viewport, facing
    /// up, with full health, no score, and vulnerable.
    pub open spec fn fresh(viewport: (u32, u32)) -> Player {
        Player {
            pos: (center(viewport.0) as i64, center(viewport.1) as i64),
            vel: (0, 0),
            angle: 0,
            health: FULL_HEALTH,
            score: 0,
            last_hit: None,
        }
    }

    /// The ship is no further from the center of the viewport than half
    /// the widest viewport, its velocity is within the limit, it faces
    /// within the full turn and it has health left.
    pub open spec fn wf(self, viewport: (u32, u32)) -> bool {
        &&& -HALF_SPAN_MAX <= self.pos.0 - center(viewport.0) <= HALF_SPAN_MAX
        &&& -HALF_SPAN_MAX <= self.pos.1 - center(viewport.1) <= HALF_SPAN_MAX
        &&& within(self.vel, VELOCITY_LIMIT)
        &&& 0 <= self.angle < TAU
        &&& 1 <= self.health <= FULL_HEALTH
    }

    /// Whether the ship is invulnerable at `now`: it was hit less than
    /// `IFRAME_MS` ago.
    pub open spec fn shielded(self, now: u64) -> bool {
        match self.last_hit {
            Some(t) => elapsed_since(t, now) < IFRAME_MS,
            None => false,
        }
    }

    /// How much of the invulnerability window is left at `now`.
    pub open spec fn shield_left(self, now: u64) -> int {
        match self.last_hit {
            Some(t) => if elapsed_since(t, now) < IFRAME_MS {
                IFRAME_MS - elapsed_since(t, now)
            } else {
                0
            },
            None => 0,
        }
    }

    /// Whether the ship is to be drawn at `now`: always while vulnerable,
    /// and in every other phase of `BLINK_MS` while invulnerable, starting
    /// with a visible one.
    pub open spec fn shown(self, now: u64) -> bool {
        match self.last_hit {
            Some(t) => !self.shielded(now) || (elapsed_since(t, now) / (BLINK_MS as int)) % 2 == 0,
            None => true,
        }
    }

    /// The ship after one tick of movement: thrust or drag on the velocity,
    /// the turn intents on the facing, then the move and the wrap. The
    /// facing is left as the turns give it, possibly outside `[0, TAU)`.
    pub open spec fn steered(
        self,
        thrust: bool,
        turn_left: bool,
        turn_right: bool,
        viewport: (u32, u32),
    ) -> Player {
        let push = heading_vector(self.angle as int, ACCELERATION as int);
        let vel = if thrust {
            (boosted(self.vel.0 as int, push.0) as i64, boosted(self.vel.1 as int, push.1) as i64)
        } else {
            (dragged(self.vel.0 as int) as i64, dragged(self.vel.1 as int) as i64)
        };
        let left: int = if turn_left { TURN_SPEED as int } else { 0 };
        let right: int = if turn_right { TURN_SPEED as int } else { 0 };
        let landed = wrap_point(displaced(self.pos, vel), viewport, PLAYER_MARGIN);
        Player {
            pos: (landed.0 as i64, landed.1 as i64),
            vel,
            angle: (self.angle - left + right) as i64,
            ..self
        }
    }

    /// The ship with its facing brought back into `[0, TAU)`.
    pub open spec fn normalized(self) -> Player {
        Player { angle: wrapped(self.angle as int) as i64, ..self }
    }

    /// The ship after the viewport changed: it keeps its offset from the
    /// center.
    pub open spec fn reanchored(self, old_viewport: (u32, u32), new_viewport: (u32, u32)) -> Player {
        Player {
            pos: (
                reanchored(self.pos.0 as int, old_viewport.0, new_viewport.0) as i64,
                reanchored(self.pos.1 as int, old_viewport.1, new_viewport.1) as i64,
            ),
            ..self
        }
    }

    /// The ship after a hit at `now`: a point of health is gone, down to
    /// the floor of zero, and the invulnerability window starts.
    pub open spec fn hurt(self, now: u64) -> Player {
        Player {
            health: if self.health > 0 {
                (self.health - 1) as u32
            } else {
                0
            },
            last_hit: Some(now),
            ..self
        }
    }

    /// A fresh ship in the middle of the viewport.
    pub fn new(viewport: (u32, u32)) -> (p: Player)
        ensures
            p == Player::fresh(viewport),
            p.wf(viewport),
    {
        Player {
            pos: ((viewport.0 as i64) * (UNIT / 2), (viewport.1 as i64) * (UNIT / 2)),
            vel: (0, 0),
            angle: 0,
            health: FULL_HEALTH,
            score: 0,
            last_hit: None,
        }
    }

    /// Whether the ship is well formed in the given viewport.
    pub fn is_valid(&self, viewport: (u32, u32)) -> (ok: bool)
        ensures
            ok == self.wf(viewport),
    {
        let cx: i128 = (viewport.0 as i128) * 500;
        let cy: i128 = (viewport.1 as i128) * 500;
        let ox: i128 = self.pos.0 as i128 - cx;
        let oy: i128 = self.pos.1 as i128 - cy;
        let span: i128 = HALF_SPAN_MAX as i128;
        -span <= ox && ox <= span && -span <= oy && oy <= span && is_within(self.vel, VELOCITY_LIMIT)
            && 0 <= self.angle && self.angle < TAU && 1 <= self.health && self.health <= FULL_HEALTH
    }

    /// Whether the ship is invulnerable at `now`.
    pub fn is_invulnerable(&self, now: u64) -> (yes: bool)
        ensures
            yes == self.shielded(now),
    {
        self.invulnerability_remaining(now) > 0
    }

    /// How many milliseconds of the invulnerability window are left at `now`.
    pub fn invulnerability_remaining(&self, now: u64) -> (left: u64)
        ensures
            left == self.shield_left(now),
    {
        match self.last_hit {
            Some(t) => {
                let elapsed: u64 = if now >= t { now - t } else { 0 };
                if elapsed < IFRAME_MS {
                    IFRAME_MS - elapsed
                } else {
                    0
                }
            },
            None => 0,
        }
    }

    /// Whether the ship is to be drawn at `now`.
    pub fn is_visible(&self, now: u64) -> (yes: bool)
        ensures
            yes == self.shown(now),
    {
        match self.last_hit {
            Some(t) => {
                let elapsed: u64 = if now >= t { now - t } else { 0 };
                elapsed >= IFRAME_MS || (elapsed / BLINK_MS) % 2 == 0
            },
            None => true,
        }
    }

    /// One tick of movement.
    pub fn steer(&mut self, thrust: bool, turn_left: bool, turn_right: bool, viewport: (u32, u32))
        requires
            old(self).wf(viewport),
        ensures
            *final(self) == old(self).steered(thrust, turn_left, turn_right, viewport),
            0 <= final(self).pos.0 <= extent(viewport.0),
            0 <= final(self).pos.1 <= extent(viewport.1),
            within(final(self).vel, VELOCITY_LIMIT),
            -TURN_SPEED <= final(self).angle < TAU + TURN_SPEED,
    {
        if thrust {
            let push = launch_velocity(self.angle, ACCELERATION);
            self.vel.0 = clamp_to(self.vel.0 + push.0, -VELOCITY_LIMIT, VELOCITY_LIMIT);
            self.vel.1 = clamp_to(self.vel.1 + push.1, -VELOCITY_LIMIT, VELOCITY_LIMIT);
        } else {
            proof {
                lemma_drag_shrinks(self.vel.0 as int);
                lemma_drag_shrinks(self.vel.1 as int);
            }
            self.vel.0 = div_trunc(self.vel.0 * DRAG_PERCENT, 100);
            self.vel.1 = div_trunc(self.vel.1 * DRAG_PERCENT, 100);
        }
        if turn_left {
            self.angle = self.angle - TURN_SPEED;
        }
        if turn_right {
            self.angle = self.angle + TURN_SPEED;
        }
        let mut px: i64 = self.pos.0 + self.vel.0;
        let mut py: i64 = self.pos.1 + self.vel.1;
        wrap_player(&mut px, &mut py, viewport, PLAYER_MARGIN);
        self.pos = (px, py);
    }

    /// Brings the facing back into `[0, TAU)`.
    pub fn normalize_facing(&mut self)
        ensures
            *final(self) == old(self).normalized(),
            0 <= final(self).angle < TAU,
    {
        self.angle = wrap_angle(self.angle);
    }

    /// Follows a change of the viewport.
    pub fn follow_resize(&mut self, old_viewport: (u32, u32), new_viewport: (u32, u32))
        requires
            old(self).wf(old_viewport),
        ensures
            *final(self) == old(self).reanchored(old_viewport, new_viewport),
            final(self).wf(new_viewport),
    {
        let mut px: i64 = self.pos.0;
        let mut py: i64 = self.pos.1;
        adjust_pos_for_resize(&mut px, &mut py, old_viewport, new_viewport);
        self.pos = (px, py);
    }
}

/// Drag never speeds a velocity component up.
pub proof fn lemma_drag_shrinks(v: int)
    ensures
        v >= 0 ==> 0 <= dragged(v) <= v,
        v <= 0 ==> v <= dragged(v) <= 0,
{
    let m = if v >= 0 { v } else { -v };
    assert(0 <= (m * 98) / 100 <= m);
    assert(v * DRAG_PERCENT == if v >= 0 { m * 98 } else { -(m * 98) });
}

/// Puts the ship back to its starting state in the middle of the viewport.
pub fn reset_player(player: &mut Player, viewport: (u32, u32))
    ensures
        *final(player) == Player::fresh(viewport),
        final(player).wf(viewport),
{
    *player = Player::new(viewport);
}

} // verus!
