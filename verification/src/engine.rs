//! The steps of a tick, each on the collections it works on.
use vstd::prelude::*;
use rand::rngs::StdRng;
use crate::entity::{
    on_screen, rocks_wf, shots_wf, within, Asteroid, AsteroidSize, Projectile, Span, ASTEROID_MARGIN,
    POSITION_LIMIT, VELOCITY_LIMIT,
};
use crate::geometry::Point;
use crate::motion::{check_collision, collides, heading_vector, launch_velocity, lemma_heading_vector_bound};
use crate::player::{Player, SHIP_RADIUS};
use crate::spawn::{is_random_velocity, is_spawn_point, pick_spawn_point, spawn_at};

verus! {

/// The number of rocks that the field is topped up to.
pub const POPULATION_FLOOR: usize = 15;

/// What a destroyed rock adds to the score.
pub const SCORE_BONUS: u64 = 10;

/// Speed of a shot.
pub const PROJECTILE_SPEED: i32 = 9000;

/// Collision radius of a shot.
pub const PROJECTILE_RADIUS: u32 = 3000;

/// Slowest speed of a new rock.
pub const SPEED_MIN: i32 = 1000;

/// The speed that a new rock stays below.
pub const SPEED_MAX: i32 = 3000;

/// The speeds of new rocks.
pub open spec fn spec_speed_range() -> Span {
    Span { start: SPEED_MIN, end: SPEED_MAX }
}

/// The speeds of new rocks: from `SPEED_MIN` up to, but not including,
/// `SPEED_MAX`.
#[verifier::when_used_as_spec(spec_speed_range)]
pub fn speed_range() -> (r: Span)
    ensures
        r == spec_speed_range(),
{
    Span { start: SPEED_MIN, end: SPEED_MAX }
}

/// Every shot one tick later.
pub open spec fn moved_all(shots: Seq<Projectile>) -> Seq<Projectile> {
    Seq::new(shots.len(), |i: int| shots[i].moved())
}

/// Every rock one tick later.
pub open spec fn drifted_all(rocks: Seq<Asteroid>, viewport: (u32, u32)) -> Seq<Asteroid> {
    Seq::new(rocks.len(), |i: int| rocks[i].drifted(viewport))
}

/// The shot that a ship fires: from where it is, the way it faces.
pub open spec fn shot_from(player: Player) -> Projectile {
    let v = heading_vector(player.angle as int, PROJECTILE_SPEED as int);
    Projectile {
        pos: player.pos,
        vel: (v.0 as i64, v.1 as i64),
        angle: player.angle,
        radius: PROJECTILE_RADIUS,
    }
}

/// The ship's circle overlaps that of the rock.
pub open spec fn rams(pos: (i64, i64), rock: Asteroid) -> bool {
    collides(pos, SHIP_RADIUS, rock.pos, rock.radius)
}

/// The ship's circle overlaps that of some rock.
pub open spec fn rams_any(pos: (i64, i64), rocks: Seq<Asteroid>) -> bool {
    exists|i: int| 0 <= i < rocks.len() && rams(pos, #[trigger] rocks[i])
}

/// The ship takes damage at `now`: it is vulnerable and touches a rock.
pub open spec fn takes_damage(player: Player, rocks: Seq<Asteroid>, now: u64) -> bool {
    !player.shielded(now) && rams_any(player.pos, rocks)
}

/// The shot's circle overlaps that of the rock.
pub open spec fn strikes(shot: Projectile, rock: Asteroid) -> bool {
    collides(shot.pos, shot.radius, rock.pos, rock.radius)
}

/// `found` is the first pair of a rock and a shot that overlap, as indices
/// into `rocks` and `shots`: first by the rock's place, then by the shot's.
/// It is `None` exactly when no rock and shot overlap.
pub open spec fn is_first_hit(
    rocks: Seq<Asteroid>,
    shots: Seq<Projectile>,
    found: Option<(usize, usize)>,
) -> bool {
    match found {
        Some((ai, pi)) => {
            &&& ai < rocks.len()
            &&& pi < shots.len()
            &&& strikes(shots[pi as int], rocks[ai as int])
            &&& forall|i: int, j: int|
                0 <= i < ai && 0 <= j < shots.len() ==> !strikes(#[trigger] shots[j], #[trigger] rocks[i])
            &&& forall|j: int| 0 <= j < pi ==> !strikes(#[trigger] shots[j], rocks[ai as int])
        },
        None => forall|i: int, j: int|
            0 <= i < rocks.len() && 0 <= j < shots.len() ==> !strikes(#[trigger] shots[j], #[trigger] rocks[i]),
    }
}

/// The test that a shot passes to stay in play: it is inside the viewport.
pub open spec fn stays(viewport: (u32, u32)) -> spec_fn(Projectile) -> bool {
    |p: Projectile| on_screen(p.pos, viewport)
}

/// A rock that has just entered the field: a large one, just outside an edge
/// of the viewport.
pub open spec fn is_newcomer(rock: Asteroid, viewport: (u32, u32), shapes: Seq<Vec<Point>>) -> bool {
    &&& is_spawn_point(rock.pos, viewport, ASTEROID_MARGIN)
    &&& rock.is_spawned(AsteroidSize::Large, rock.pos, shapes, speed_range())
}

/// A score after the bonus for a destroyed rock; it stops at the largest
/// score there is.
pub open spec fn rewarded(score: u64) -> u64 {
    if score + SCORE_BONUS > u64::MAX {
        u64::MAX
    } else {
        (score + SCORE_BONUS) as u64
    }
}

/// There is only one first hit.
pub proof fn lemma_first_hit_unique(
    rocks: Seq<Asteroid>,
    shots: Seq<Projectile>,
    found: Option<(usize, usize)>,
    other: Option<(usize, usize)>,
)
    requires
        is_first_hit(rocks, shots, found),
        is_first_hit(rocks, shots, other),
    ensures
        found == other,
{
    match (found, other) {
        (Some((ai, pi)), Some((bi, pj))) => {
            assert(strikes(shots[pi as int], rocks[ai as int]));
            assert(strikes(shots[pj as int], rocks[bi as int]));
            assert(ai == bi);
            assert(pi == pj);
        },
        (Some((ai, pi)), None) => {
            assert(strikes(shots[pi as int], rocks[ai as int]));
        },
        (None, Some((bi, pj))) => {
            assert(strikes(shots[pj as int], rocks[bi as int]));
        },
        (None, None) => {},
    }
}

/// A velocity picked at random from the speeds of new rocks is within the
/// velocity limit.
pub proof fn lemma_random_velocity_within(v: (i64, i64))
    requires
        is_random_velocity(v, speed_range()),
    ensures
        within(v, VELOCITY_LIMIT),
{
    let (angle, speed) = choose|angle: int, speed: int|
        speed_range().contains(speed) && (v.0 as int, v.1 as int) == #[trigger] heading_vector(angle, speed);
    lemma_heading_vector_bound(angle, speed);
}

/// A rock spawned where a well-formed one could be is well formed.
pub proof fn lemma_spawned_wf(rock: Asteroid, size: AsteroidSize, pos: (i64, i64), shapes: Seq<Vec<Point>>)
    requires
        rock.is_spawned(size, pos, shapes, speed_range()),
        within(pos, POSITION_LIMIT),
    ensures
        rock.wf(),
{
    lemma_random_velocity_within(rock.vel);
}

/// A rock that has just entered the field is well formed.
pub proof fn lemma_newcomer_wf(rock: Asteroid, viewport: (u32, u32), shapes: Seq<Vec<Point>>)
    requires
        is_newcomer(rock, viewport, shapes),
    ensures
        rock.wf(),
{
    lemma_spawned_wf(rock, AsteroidSize::Large, rock.pos, shapes);
}

/// The shot that the ship fires.
pub fn fire(player: &Player) -> (shot: Projectile)
    ensures
        shot == shot_from(*player),
        within(shot.vel, VELOCITY_LIMIT),
{
    proof {
        lemma_heading_vector_bound(player.angle as int, PROJECTILE_SPEED as int);
    }
    let vel = launch_velocity(player.angle, PROJECTILE_SPEED);
    Projectile { pos: player.pos, vel, angle: player.angle, radius: PROJECTILE_RADIUS }
}

/// Moves every shot by its velocity.
pub fn advance_projectiles(shots: &mut Vec<Projectile>)
    requires
        shots_wf(old(shots)@),
    ensures
        final(shots)@ == moved_all(old(shots)@),
{
    let mut i: usize = 0;
    while i < shots.len()
        invariant
            shots@.len() == old(shots)@.len(),
            i <= shots@.len(),
            shots_wf(old(shots)@),
            forall|j: int| 0 <= j < i ==> #[trigger] shots@[j] == old(shots)@[j].moved(),
            forall|j: int| i <= j < shots@.len() ==> #[trigger] shots@[j] == old(shots)@[j],
        decreases shots@.len() - i,
    {
        let shot = &mut shots[i];
        shot.advance();
        i += 1;
    }
}

/// Moves, turns and wraps every rock.
pub fn advance_asteroids(rocks: &mut Vec<Asteroid>, viewport: (u32, u32))
    requires
        rocks_wf(old(rocks)@),
    ensures
        final(rocks)@ == drifted_all(old(rocks)@, viewport),
        rocks_wf(final(rocks)@),
{
    let mut i: usize = 0;
    while i < rocks.len()
        invariant
            rocks@.len() == old(rocks)@.len(),
            i <= rocks@.len(),
            rocks_wf(old(rocks)@),
            forall|j: int| 0 <= j < i ==> #[trigger] rocks@[j] == old(rocks)@[j].drifted(viewport),
            forall|j: int| 0 <= j < i ==> (#[trigger] rocks@[j]).wf(),
            forall|j: int| i <= j < rocks@.len() ==> #[trigger] rocks@[j] == old(rocks)@[j],
        decreases rocks@.len() - i,
    {
        let rock = &mut rocks[i];
        rock.advance(viewport);
        i += 1;
    }
}

/// Tests the ship against every rock in turn. A vulnerable ship that
/// touches one loses a point of health and turns invulnerable from `now`,
/// so the rocks after the first that lands do no further damage.
pub fn strike_player(player: &mut Player, rocks: &Vec<Asteroid>, now: u64) -> (hurt: bool)
    ensures
        hurt == takes_damage(*old(player), rocks@, now),
        *final(player) == if hurt { old(player).hurt(now) } else { *old(player) },
{
    let mut hurt: bool = false;
    let mut i: usize = 0;
    while i < rocks.len()
        invariant
            i <= rocks@.len(),
            hurt ==> !old(player).shielded(now) && *player == old(player).hurt(now),
            hurt ==> exists|j: int| 0 <= j < i && rams(old(player).pos, #[trigger] rocks@[j]),
            !hurt ==> *player == *old(player),
            !hurt ==> old(player).shielded(now) || forall|j: int|
                0 <= j < i ==> !rams(old(player).pos, #[trigger] rocks@[j]),
        decreases rocks@.len() - i,
    {
        let rock = &rocks[i];
        if !player.is_invulnerable(now) && check_collision(player.pos, SHIP_RADIUS, rock.pos, rock.radius) {
            if player.health > 0 {
                player.health = player.health - 1;
            }
            player.last_hit = Some(now);
            hurt = true;
        }
        i += 1;
    }
    hurt
}

/// Looks for the first overlapping pair of a rock and a shot: rocks in
/// order, and for each rock the shots in order.
pub fn find_hit(rocks: &Vec<Asteroid>, shots: &Vec<Projectile>) -> (found: Option<(usize, usize)>)
    ensures
        is_first_hit(rocks@, shots@, found),
{
    let mut ai: usize = 0;
    while ai < rocks.len()
        invariant
            ai <= rocks@.len(),
            forall|i: int, j: int|
                0 <= i < ai && 0 <= j < shots@.len() ==> !strikes(#[trigger] shots@[j], #[trigger] rocks@[i]),
        decreases rocks@.len() - ai,
    {
        let mut pi: usize = 0;
        while pi < shots.len()
            invariant
                ai < rocks@.len(),
                pi <= shots@.len(),
                forall|i: int, j: int|
                    0 <= i < ai && 0 <= j < shots@.len() ==> !strikes(#[trigger] shots@[j], #[trigger] rocks@[i]),
                forall|j: int| 0 <= j < pi ==> !strikes(#[trigger] shots@[j], rocks@[ai as int]),
            decreases shots@.len() - pi,
        {
            if check_collision(shots[pi].pos, shots[pi].radius, rocks[ai].pos, rocks[ai].radius) {
                return Some((ai, pi));
            }
            pi += 1;
        }
        ai += 1;
    }
    None
}

/// Tops the field up to `POPULATION_FLOOR` rocks with large ones that enter
/// from outside the viewport. The rocks that were there stay, in order, at
/// the front.
pub fn replenish(rocks: &mut Vec<Asteroid>, rng: &mut StdRng, shapes: &[Vec<Point>], viewport: (u32, u32))
    requires
        shapes@.len() > 0,
    ensures
        final(rocks)@.len() == if old(rocks)@.len() < POPULATION_FLOOR {
            POPULATION_FLOOR as int
        } else {
            old(rocks)@.len() as int
        },
        final(rocks)@.subrange(0, old(rocks)@.len() as int) == old(rocks)@,
        forall|i: int|
            old(rocks)@.len() <= i < final(rocks)@.len() ==> is_newcomer(
                #[trigger] final(rocks)@[i],
                viewport,
                shapes@,
            ),
{
    while rocks.len() < POPULATION_FLOOR
        invariant
            shapes@.len() > 0,
            old(rocks)@.len() <= rocks@.len(),
            rocks@.len() <= POPULATION_FLOOR || rocks@.len() == old(rocks)@.len(),
            rocks@.subrange(0, old(rocks)@.len() as int) == old(rocks)@,
            forall|i: int|
                old(rocks)@.len() <= i < rocks@.len() ==> is_newcomer(#[trigger] rocks@[i], viewport, shapes@),
        decreases POPULATION_FLOOR - rocks@.len(),
    {
        let pos = pick_spawn_point(rng, viewport, ASTEROID_MARGIN);
        let rock = spawn_at(rng, shapes, AsteroidSize::Large, pos, speed_range());
        rocks.push(rock);
    }
}

/// Drops every shot that has left the viewport; the others stay, in order.
pub fn expire_projectiles(shots: &mut Vec<Projectile>, viewport: (u32, u32))
    ensures
        final(shots)@ == old(shots)@.filter(stays(viewport)),
        forall|i: int| 0 <= i < final(shots)@.len() ==> on_screen((#[trigger] final(shots)@[i]).pos, viewport),
{
    let mut kept: Vec<Projectile> = Vec::new();
    let mut i: usize = 0;
    proof {
        reveal(Seq::filter);
    }
    while i < shots.len()
        invariant
            i <= shots@.len(),
            shots@ == old(shots)@,
            kept@ == shots@.subrange(0, i as int).filter(stays(viewport)),
            forall|j: int| 0 <= j < kept@.len() ==> on_screen((#[trigger] kept@[j]).pos, viewport),
        decreases shots@.len() - i,
    {
        let shot = shots[i];
        proof {
            reveal(Seq::filter);
            let longer = shots@.subrange(0, i + 1);
            assert(longer.drop_last() =~= shots@.subrange(0, i as int));
        }
        if shot.is_on_screen(viewport) {
            kept.push(shot);
        }
        i += 1;
    }
    assert(shots@.subrange(0, i as int) =~= shots@);
    *shots = kept;
}

} // verus!
