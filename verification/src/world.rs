//! The game as a whole, and the tick that advances it.
use vstd::prelude::*;
use rand::rngs::StdRng;
use crate::engine::{
    advance_asteroids, advance_projectiles, drifted_all, expire_projectiles, find_hit, fire, is_first_hit,
    is_newcomer, lemma_newcomer_wf, lemma_spawned_wf, moved_all, replenish, rewarded, shot_from, speed_range, stays,
    strike_player, takes_damage, POPULATION_FLOOR, SCORE_BONUS,
};
use crate::angle::TAU;
use crate::entity::{on_screen, rocks_wf, shots_wf, within, Asteroid, AsteroidSize, Projectile, POSITION_LIMIT};
use crate::geometry::Point;
use crate::motion::{center, extent};
use crate::player::{reset_player, Player, FULL_HEALTH};
use crate::spawn::split_asteroid;

verus! {

/// What the player asks for during one tick.
#[derive(Clone, Copy, PartialEq, Eq, Debug)]
pub struct Intents {
    pub thrust: bool,
    pub turn_left: bool,
    pub turn_right: bool,
    /// True only on the tick in which the fire action begins.
    pub fire_pressed: bool,
    /// The new size of the viewport, if it changed.
    pub viewport_resized: Option<(u32, u32)>,
    pub quit_requested: bool,
}

/// What happened during one tick, for the layers that play sounds and end
/// the loop.
#[derive(Clone, Copy, PartialEq, Eq, Debug)]
pub struct TickReport {
    /// False once a quit was requested: the world was left as it was.
    pub running: bool,
    /// A shot was fired.
    pub fired: bool,
    /// The ship took damage.
    pub hurt: bool,
    /// The ship's health ran out and the game started over.
    pub reset: bool,
    /// The rock and the shot that destroyed each other, by their places in
    /// the collections as they were when the pair was found.
    pub destroyed: Option<(usize, usize)>,
}

/// The state of the game as contracts see it.
pub struct WorldState {
    pub viewport: (u32, u32),
    pub player: Player,
    pub asteroids: Seq<Asteroid>,
    pub projectiles: Seq<Projectile>,
    /// The outlines that new rocks are made from.
    pub shapes: Seq<Vec<Point>>,
}

impl WorldState {
    /// The ship, every rock and every shot are well formed, and there is an
    /// outline to make new rocks from.
    pub open spec fn wf(self) -> bool {
        &&& self.player.wf(self.viewport)
        &&& rocks_wf(self.asteroids)
        &&& shots_wf(self.projectiles)
        &&& self.shapes.len() > 0
    }

    /// The state after the viewport changed to `to`, if it did: the ship
    /// keeps its offset from the center.
    pub open spec fn resized(self, to: Option<(u32, u32)>) -> WorldState {
        match to {
            Some(viewport) => WorldState {
                viewport,
                player: self.player.reanchored(self.viewport, viewport),
                ..self
            },
            None => self,
        }
    }

    /// The state after the ship fired, if it did.
    pub open spec fn fired(self, pressed: bool) -> WorldState {
        if pressed {
            WorldState { projectiles: self.projectiles.push(shot_from(self.player)), ..self }
        } else {
            self
        }
    }

    /// The state after shots, rocks and ship have moved for one tick.
    pub open spec fn integrated(self, intents: Intents) -> WorldState {
        WorldState {
            projectiles: moved_all(self.projectiles),
            asteroids: drifted_all(self.asteroids, self.viewport),
            player: self.player.steered(intents.thrust, intents.turn_left, intents.turn_right, self.viewport),
            ..self
        }
    }

    /// The state after the ship was tested against the rocks at `now`.
    pub open spec fn struck(self, now: u64) -> WorldState {
        if takes_damage(self.player, self.asteroids, now) {
            WorldState { player: self.player.hurt(now), ..self }
        } else {
            self
        }
    }

    /// The state once input, movement and the ship's collisions of a tick
    /// are done, in that order.
    pub open spec fn before_hits(self, intents: Intents, now: u64) -> WorldState {
        self.resized(intents.viewport_resized).fired(intents.fire_pressed).integrated(intents).struck(now)
    }

    /// The state after the game started over: a fresh ship and an empty
    /// field.
    pub open spec fn restarted(self) -> WorldState {
        WorldState {
            player: Player::fresh(self.viewport),
            asteroids: Seq::empty(),
            projectiles: Seq::empty(),
            ..self
        }
    }

    /// The rocks that `destroyed` leaves, in order.
    pub open spec fn surviving_rocks(self, destroyed: Option<(usize, usize)>) -> Seq<Asteroid> {
        match destroyed {
            Some((ai, pi)) => self.asteroids.remove(ai as int),
            None => self.asteroids,
        }
    }

    /// The shots that `destroyed` leaves, in order.
    pub open spec fn surviving_shots(self, destroyed: Option<(usize, usize)>) -> Seq<Projectile> {
        match destroyed {
            Some((ai, pi)) => self.projectiles.remove(pi as int),
            None => self.projectiles,
        }
    }

    /// How many pieces the destroyed rock breaks into.
    pub open spec fn litter(self, destroyed: Option<(usize, usize)>) -> int {
        match destroyed {
            Some((ai, pi)) => if self.asteroids[ai as int].size.next().is_some() {
                2
            } else {
                0
            },
            None => 0,
        }
    }

    /// `after` is what a tick leaves of this state, in which the ship has
    /// health left, once the pair `destroyed` is resolved: the survivors stay
    /// in order; behind them come the pieces of the destroyed rock, where it
    /// lay and one size class down; behind those as many newcomers as the
    /// population floor asks for. The shots that left the viewport are
    /// gone, the score has its bonus, and the facing is back in `[0, TAU)`.
    pub open spec fn settles_into(self, destroyed: Option<(usize, usize)>, after: WorldState) -> bool {
        let kept = self.surviving_rocks(destroyed);
        let pieces = self.litter(destroyed);
        &&& after.viewport == self.viewport
        &&& after.shapes == self.shapes
        &&& after.player == Player {
            score: if destroyed.is_some() { rewarded(self.player.score) } else { self.player.score },
            ..self.player.normalized()
        }
        &&& after.projectiles == self.surviving_shots(destroyed).filter(stays(self.viewport))
        &&& after.asteroids.len() == if kept.len() + pieces < POPULATION_FLOOR {
            POPULATION_FLOOR as int
        } else {
            kept.len() + pieces
        }
        &&& after.asteroids.subrange(0, kept.len() as int) == kept
        &&& forall|i: int| kept.len() <= i < kept.len() + pieces ==> match destroyed {
                Some((ai, pi)) => (#[trigger] after.asteroids[i]).is_spawned(
                    self.asteroids[ai as int].size.next().unwrap(),
                    self.asteroids[ai as int].pos,
                    self.shapes,
                    speed_range(),
                ),
                None => false,
            }
        &&& forall|i: int|
            kept.len() + pieces <= i < after.asteroids.len() ==> is_newcomer(
                #[trigger] after.asteroids[i],
                self.viewport,
                self.shapes,
            )
    }

    /// `after` and `report` are what one tick with `intents` at the time
    /// `now` can make of this state.
    pub open spec fn ticks_into(
        self,
        intents: Intents,
        now: u64,
        after: WorldState,
        report: TickReport,
    ) -> bool {
        if intents.quit_requested {
            &&& after == self
            &&& report == (TickReport {
                running: false,
                fired: false,
                hurt: false,
                reset: false,
                destroyed: None,
            })
        } else {
            let moved = self.resized(intents.viewport_resized).fired(intents.fire_pressed).integrated(intents);
            let mid = moved.struck(now);
            &&& report.running
            &&& report.fired == intents.fire_pressed
            &&& report.hurt == takes_damage(moved.player, moved.asteroids, now)
            &&& report.reset == (mid.player.health == 0)
            &&& if mid.player.health == 0 {
                report.destroyed.is_none() && after == mid.restarted()
            } else {
                &&& is_first_hit(mid.asteroids, mid.projectiles, report.destroyed)
                &&& mid.settles_into(report.destroyed, after)
            }
        }
    }
}

/// A tick that neither quits nor starts the game over leaves at least
/// `POPULATION_FLOOR` rocks in the field.
pub proof fn lemma_tick_keeps_population(
    before: WorldState,
    intents: Intents,
    now: u64,
    after: WorldState,
    report: TickReport,
)
    requires
        before.ticks_into(intents, now, after, report),
        !intents.quit_requested,
        !report.reset,
    ensures
        after.asteroids.len() >= POPULATION_FLOOR,
{
}

/// After a tick no shot is outside the viewport: one that has left it is no
/// longer in the collection.
pub proof fn lemma_tick_expires_shots(
    before: WorldState,
    intents: Intents,
    now: u64,
    after: WorldState,
    report: TickReport,
)
    requires
        before.ticks_into(intents, now, after, report),
        !intents.quit_requested,
    ensures
        forall|i: int|
            0 <= i < after.projectiles.len() ==> on_screen((#[trigger] after.projectiles[i]).pos, after.viewport),
{
    if !report.reset {
        let mid = before.before_hits(intents, now);
        let shots = mid.surviving_shots(report.destroyed);
        assert forall|i: int| 0 <= i < after.projectiles.len() implies on_screen(
            (#[trigger] after.projectiles[i]).pos,
            after.viewport,
        ) by {
            shots.lemma_filter_pred(stays(mid.viewport), i);
        }
    }
}

/// The tick in which the ship's health runs out ends with a fresh ship, at
/// full health and without score, in an empty field.
pub proof fn lemma_tick_reset(
    before: WorldState,
    intents: Intents,
    now: u64,
    after: WorldState,
    report: TickReport,
)
    requires
        before.ticks_into(intents, now, after, report),
        report.reset,
    ensures
        after.player == Player::fresh(after.viewport),
        after.player.health == FULL_HEALTH,
        after.player.score == 0,
        after.asteroids.len() == 0,
        after.projectiles.len() == 0,
{
}

/// A tick takes at most one point of health, and none from a ship that is
/// invulnerable; health that would reach zero is full again at once, so it
/// is never below one after a tick.
pub proof fn lemma_tick_health(
    before: WorldState,
    intents: Intents,
    now: u64,
    after: WorldState,
    report: TickReport,
)
    requires
        before.wf(),
        before.ticks_into(intents, now, after, report),
    ensures
        1 <= after.player.health <= FULL_HEALTH,
        !report.reset ==> after.player.health == before.player.health - if report.hurt { 1int } else { 0int },
        report.reset ==> report.hurt && before.player.health == 1,
{
}

/// After a tick the ship's facing lies in `[0, TAU)`, whatever the turn
/// intents were.
pub proof fn lemma_tick_facing(
    before: WorldState,
    intents: Intents,
    now: u64,
    after: WorldState,
    report: TickReport,
)
    requires
        before.wf(),
        before.ticks_into(intents, now, after, report),
    ensures
        0 <= after.player.angle < TAU,
{
}

/// The score only grows, except when the game starts over: a tick adds
/// `SCORE_BONUS` for a destroyed rock and nothing else.
pub proof fn lemma_tick_score(
    before: WorldState,
    intents: Intents,
    now: u64,
    after: WorldState,
    report: TickReport,
)
    requires
        before.ticks_into(intents, now, after, report),
        !report.reset,
    ensures
        after.player.score == if report.destroyed.is_some() {
            rewarded(before.player.score)
        } else {
            before.player.score
        },
        after.player.score >= before.player.score,
{
}

/// A destroyed large rock leaves exactly two medium pieces where it lay; a
/// destroyed medium rock leaves none. Both it and the shot are gone.
pub proof fn lemma_tick_fragments(
    before: WorldState,
    intents: Intents,
    now: u64,
    after: WorldState,
    report: TickReport,
    ai: usize,
    pi: usize,
)
    requires
        before.ticks_into(intents, now, after, report),
        report.destroyed == Some((ai, pi)),
    ensures
        ({
            let mid = before.before_hits(intents, now);
            let rock = mid.asteroids[ai as int];
            let kept = mid.asteroids.len() - 1;
            &&& ai < mid.asteroids.len()
            &&& after.asteroids.subrange(0, kept) == mid.asteroids.remove(ai as int)
            &&& rock.size == AsteroidSize::Large ==> {
                &&& after.asteroids.len() >= kept + 2
                &&& after.asteroids[kept].size == AsteroidSize::Medium
                &&& after.asteroids[kept].pos == rock.pos
                &&& after.asteroids[kept + 1].size == AsteroidSize::Medium
                &&& after.asteroids[kept + 1].pos == rock.pos
                &&& forall|i: int|
                    kept + 2 <= i < after.asteroids.len() ==> (#[trigger] after.asteroids[i]).size
                        == AsteroidSize::Large
            }
            &&& rock.size == AsteroidSize::Medium ==> forall|i: int|
                kept <= i < after.asteroids.len() ==> (#[trigger] after.asteroids[i]).size
                    == AsteroidSize::Large
        }),
{
}

/// A well-formed ship lies within the position limit.
pub proof fn lemma_ship_in_reach(player: Player, viewport: (u32, u32))
    requires
        player.wf(viewport),
    ensures
        within(player.pos, POSITION_LIMIT),
{
    assert(center(viewport.0) == viewport.0 * 500 && center(viewport.1) == viewport.1 * 500);
}

/// Whatever is inside the viewport lies within the position limit.
pub proof fn lemma_on_screen_in_reach(pos: (i64, i64), viewport: (u32, u32))
    requires
        on_screen(pos, viewport),
    ensures
        within(pos, POSITION_LIMIT),
{
}

/// What the presentation layer gets to see of the game after a tick. It
/// borrows the collections, so the game cannot change while it is held.
pub struct Snapshot<'a> {
    pub player: Player,
    /// How much of the ship's invulnerability window is left, in
    /// milliseconds.
    pub invulnerability_remaining: u64,
    /// Whether the ship is to be drawn: an invulnerable ship blinks.
    pub player_visible: bool,
    pub asteroids: &'a Vec<Asteroid>,
    pub projectiles: &'a Vec<Projectile>,
    pub viewport: (u32, u32),
}

/// The game: the ship, the rocks and the shots, and the viewport they live
/// in.
pub struct World {
    viewport: (u32, u32),
    player: Player,
    asteroids: Vec<Asteroid>,
    projectiles: Vec<Projectile>,
    shapes: Vec<Vec<Point>>,
}

impl View for World {
    type V = WorldState;

    closed spec fn view(&self) -> WorldState {
        WorldState {
            viewport: self.viewport,
            player: self.player,
            asteroids: self.asteroids@,
            projectiles: self.projectiles@,
            shapes: self.shapes@,
        }
    }
}

/// Whether every rock is well formed.
fn all_rocks_valid(rocks: &Vec<Asteroid>) -> (ok: bool)
    ensures
        ok == rocks_wf(rocks@),
{
    let mut i: usize = 0;
    while i < rocks.len()
        invariant
            i <= rocks@.len(),
            forall|j: int| 0 <= j < i ==> (#[trigger] rocks@[j]).wf(),
        decreases rocks@.len() - i,
    {
        if !rocks[i].is_valid() {
            return false;
        }
        i += 1;
    }
    true
}

/// Whether every shot is well formed.
fn all_shots_valid(shots: &Vec<Projectile>) -> (ok: bool)
    ensures
        ok == shots_wf(shots@),
{
    let mut i: usize = 0;
    while i < shots.len()
        invariant
            i <= shots@.len(),
            forall|j: int| 0 <= j < i ==> (#[trigger] shots@[j]).wf(),
        decreases shots@.len() - i,
    {
        if !shots[i].is_valid() {
            return false;
        }
        i += 1;
    }
    true
}

impl World {
    /// A new game in a viewport of the given size: a fresh ship in the
    /// middle, no shots, and `POPULATION_FLOOR` large rocks entering from
    /// outside. New rocks are made from the outlines `shapes`.
    pub fn new(viewport: (u32, u32), shapes: Vec<Vec<Point>>, rng: &mut StdRng) -> (world: World)
        requires
            shapes@.len() > 0,
        ensures
            world@.wf(),
            world@.viewport == viewport,
            world@.shapes == shapes@,
            world@.player == Player::fresh(viewport),
            world@.projectiles.len() == 0,
            world@.asteroids.len() == POPULATION_FLOOR,
            forall|i: int|
                0 <= i < world@.asteroids.len() ==> is_newcomer(#[trigger] world@.asteroids[i], viewport, shapes@),
    {
        let mut asteroids: Vec<Asteroid> = Vec::new();
        replenish(&mut asteroids, rng, shapes.as_slice(), viewport);
        proof {
            assert forall|i: int| 0 <= i < asteroids@.len() implies (#[trigger] asteroids@[i]).wf() by {
                lemma_newcomer_wf(asteroids@[i], viewport, shapes@);
            }
        }
        World { viewport, player: Player::new(viewport), asteroids, projectiles: Vec::new(), shapes }
    }

    /// A game in a given state, if that state is well formed.
    pub fn from_parts(
        viewport: (u32, u32),
        shapes: Vec<Vec<Point>>,
        player: Player,
        asteroids: Vec<Asteroid>,
        projectiles: Vec<Projectile>,
    ) -> (made: Option<World>)
        ensures
            made.is_some() == (WorldState {
                viewport,
                player,
                asteroids: asteroids@,
                projectiles: projectiles@,
                shapes: shapes@,
            }).wf(),
            match made {
                Some(world) => world@ == (WorldState {
                    viewport,
                    player,
                    asteroids: asteroids@,
                    projectiles: projectiles@,
                    shapes: shapes@,
                }),
                None => true,
            },
    {
        let shapes_ok: bool = shapes.len() > 0;
        let player_ok: bool = player.is_valid(viewport);
        let rocks_ok: bool = all_rocks_valid(&asteroids);
        let shots_ok: bool = all_shots_valid(&projectiles);
        if shapes_ok && player_ok && rocks_ok && shots_ok {
            Some(World { viewport, player, asteroids, projectiles, shapes })
        } else {
            None
        }
    }

    /// Whether the game is in a well-formed state. Every game that `new` or
    /// `from_parts` made is, and `tick` keeps it so.
    pub fn is_valid(&self) -> (ok: bool)
        ensures
            ok == self@.wf(),
    {
        let shapes_ok: bool = self.shapes.len() > 0;
        let player_ok: bool = self.player.is_valid(self.viewport);
        let rocks_ok: bool = all_rocks_valid(&self.asteroids);
        let shots_ok: bool = all_shots_valid(&self.projectiles);
        shapes_ok && player_ok && rocks_ok && shots_ok
    }

    /// The size of the viewport, in pixels.
    pub fn viewport(&self) -> (r: (u32, u32))
        ensures
            r == self@.viewport,
    {
        self.viewport
    }

    /// The ship.
    pub fn player(&self) -> (r: &Player)
        ensures
            *r == self@.player,
    {
        &self.player
    }

    /// The rocks, in the order in which they entered the field.
    pub fn asteroids(&self) -> (r: &Vec<Asteroid>)
        ensures
            r@ == self@.asteroids,
    {
        &self.asteroids
    }

    /// The shots in flight, oldest first.
    pub fn projectiles(&self) -> (r: &Vec<Projectile>)
        ensures
            r@ == self@.projectiles,
    {
        &self.projectiles
    }

    /// The outlines that new rocks are made from.
    pub fn shapes(&self) -> (r: &Vec<Vec<Point>>)
        ensures
            r@ == self@.shapes,
    {
        &self.shapes
    }

    /// The state of the game at the time `now`, to be presented.
    pub fn snapshot(&self, now: u64) -> (snap: Snapshot<'_>)
        ensures
            snap.player == self@.player,
            snap.invulnerability_remaining == self@.player.shield_left(now),
            snap.player_visible == self@.player.shown(now),
            snap.asteroids@ == self@.asteroids,
            snap.projectiles@ == self@.projectiles,
            snap.viewport == self@.viewport,
    {
        Snapshot {
            player: self.player,
            invulnerability_remaining: self.player.invulnerability_remaining(now),
            player_visible: self.player.is_visible(now),
            asteroids: &self.asteroids,
            projectiles: &self.projectiles,
            viewport: self.viewport,
        }
    }

    /// Takes the input of one tick: a change of the viewport, then a shot.
    fn take_input(&mut self, intents: Intents)
        requires
            old(self)@.wf(),
        ensures
            final(self)@ == old(self)@.resized(intents.viewport_resized).fired(intents.fire_pressed),
            final(self)@.wf(),
    {
        if let Some(viewport) = intents.viewport_resized {
            self.player.follow_resize(self.viewport, viewport);
            self.viewport = viewport;
        }
        if intents.fire_pressed {
            let shot = fire(&self.player);
            proof {
                lemma_ship_in_reach(self.player, self.viewport);
            }
            self.projectiles.push(shot);
        }
    }

    /// Moves shots, rocks and ship for one tick.
    fn integrate(&mut self, intents: Intents)
        requires
            old(self)@.wf(),
        ensures
            final(self)@ == old(self)@.integrated(intents),
            final(self)@.player.health == old(self)@.player.health,
            rocks_wf(final(self)@.asteroids),
            final(self)@.shapes.len() > 0,
    {
        advance_projectiles(&mut self.projectiles);
        advance_asteroids(&mut self.asteroids, self.viewport);
        self.player.steer(intents.thrust, intents.turn_left, intents.turn_right, self.viewport);
    }

    /// Starts the game over.
    fn restart(&mut self)
        requires
            old(self)@.shapes.len() > 0,
        ensures
            final(self)@ == old(self)@.restarted(),
            final(self)@.wf(),
    {
        reset_player(&mut self.player, self.viewport);
        self.asteroids.clear();
        self.projectiles.clear();
    }

    /// Resolves the pair that `find_hit` found: the rock and the shot leave
    /// their collections, the score gets its bonus, and the pieces of the
    /// rock join the field behind the rocks that stay.
    fn resolve_hit(&mut self, destroyed: Option<(usize, usize)>, rng: &mut StdRng)
        requires
            is_first_hit(old(self)@.asteroids, old(self)@.projectiles, destroyed),
            old(self)@.shapes.len() > 0,
        ensures
            final(self)@.viewport == old(self)@.viewport,
            final(self)@.shapes == old(self)@.shapes,
            final(self)@.player == (Player {
                score: if destroyed.is_some() {
                    rewarded(old(self)@.player.score)
                } else {
                    old(self)@.player.score
                },
                ..old(self)@.player
            }),
            final(self)@.projectiles == old(self)@.surviving_shots(destroyed),
            final(self)@.asteroids.len() == old(self)@.surviving_rocks(destroyed).len() + old(self)@.litter(
                destroyed,
            ),
            final(self)@.asteroids.subrange(0, old(self)@.surviving_rocks(destroyed).len() as int) == old(
                self,
            )@.surviving_rocks(destroyed),
            forall|i: int|
                old(self)@.surviving_rocks(destroyed).len() <= i < final(self)@.asteroids.len() ==> match destroyed {
                Some((ai, pi)) => (#[trigger] final(self)@.asteroids[i]).is_spawned(
                    old(self)@.asteroids[ai as int].size.next().unwrap(),
                    old(self)@.asteroids[ai as int].pos,
                    old(self)@.shapes,
                    speed_range(),
                ),
                None => false,
            },
    {
        if let Some((ai, pi)) = destroyed {
            self.player.score = if self.player.score > u64::MAX - SCORE_BONUS {
                u64::MAX
            } else {
                self.player.score + SCORE_BONUS
            };
            let rock = self.asteroids.remove(ai);
            self.projectiles.remove(pi);
            let mut pieces = split_asteroid(&rock, rng, self.shapes.as_slice(), speed_range());
            self.asteroids.append(&mut pieces);
        }
    }

    /// Advances the game by one tick at the time `now`, in milliseconds of
    /// a clock that never runs backwards.
    ///
    /// In order: the viewport follows a resize and a shot is fired; shots,
    /// rocks and ship move; the ship is tested against the rocks, and if
    /// its health runs out the game starts over and the tick ends there.
    /// Otherwise the first rock and shot that overlap destroy each other,
    /// the rock's pieces join the field, the field is topped up to the
    /// population floor, shots outside the viewport are dropped, and the
    /// ship's facing is brought back into the full turn.
    pub fn tick(&mut self, intents: Intents, now: u64, rng: &mut StdRng) -> (report: TickReport)
        requires
            old(self)@.wf(),
        ensures
            final(self)@.wf(),
            old(self)@.ticks_into(intents, now, final(self)@, report),
            1 <= final(self)@.player.health <= FULL_HEALTH,
            0 <= final(self)@.player.angle < TAU,
            report.reset ==> final(self)@ == old(self)@.before_hits(intents, now).restarted(),
            report.running && !report.reset ==> final(self)@.asteroids.len() >= POPULATION_FLOOR,
            report.running ==> forall|i: int|
                0 <= i < final(self)@.projectiles.len() ==> on_screen(
                    (#[trigger] final(self)@.projectiles[i]).pos,
                    final(self)@.viewport,
                ),
    {
        let report = self.step(intents, now, rng);
        proof {
            lemma_tick_health(old(self)@, intents, now, self@, report);
            lemma_tick_facing(old(self)@, intents, now, self@, report);
            if report.running {
                lemma_tick_expires_shots(old(self)@, intents, now, self@, report);
            }
        }
        report
    }

    /// The tick itself.
    fn step(&mut self, intents: Intents, now: u64, rng: &mut StdRng) -> (report: TickReport)
        requires
            old(self)@.wf(),
        ensures
            final(self)@.wf(),
            old(self)@.ticks_into(intents, now, final(self)@, report),
    {
        if intents.quit_requested {
            return TickReport { running: false, fired: false, hurt: false, reset: false, destroyed: None };
        }
        self.take_input(intents);
        self.integrate(intents);
        let hurt = strike_player(&mut self.player, &self.asteroids, now);
        let ghost mid = self@;
        if self.player.health == 0 {
            self.restart();
            return TickReport { running: true, fired: intents.fire_pressed, hurt, reset: true, destroyed: None };
        }
        let destroyed = find_hit(&self.asteroids, &self.projectiles);
        self.resolve_hit(destroyed, rng);
        let ghost settled = self@;
        replenish(&mut self.asteroids, rng, self.shapes.as_slice(), self.viewport);
        expire_projectiles(&mut self.projectiles, self.viewport);
        self.player.normalize_facing();
        proof {
            let kept = mid.surviving_rocks(destroyed);
            let after = self@;
            assert forall|i: int| 0 <= i < settled.asteroids.len() implies after.asteroids[i]
                == settled.asteroids[i] by {
                assert(after.asteroids.subrange(0, settled.asteroids.len() as int)[i] == after.asteroids[i]);
            }
            assert(after.asteroids.subrange(0, kept.len() as int) =~= kept) by {
                assert forall|i: int| 0 <= i < kept.len() implies after.asteroids[i] == kept[i] by {
                    assert(settled.asteroids.subrange(0, kept.len() as int)[i] == settled.asteroids[i]);
                }
            }
            assert forall|i: int| 0 <= i < after.asteroids.len() implies (
            #[trigger] after.asteroids[i]).wf() by {
                if i < kept.len() {
                    assert(after.asteroids[i] == kept[i]);
                } else if i < settled.asteroids.len() {
                    let (ai, pi) = destroyed.unwrap();
                    lemma_spawned_wf(
                        settled.asteroids[i],
                        mid.asteroids[ai as int].size.next().unwrap(),
                        mid.asteroids[ai as int].pos,
                        mid.shapes,
                    );
                } else {
                    lemma_newcomer_wf(after.asteroids[i], mid.viewport, mid.shapes);
                }
            }
            assert forall|i: int| 0 <= i < after.projectiles.len() implies (
            #[trigger] after.projectiles[i]).wf() by {
                let shot = after.projectiles[i];
                let before = mid.surviving_shots(destroyed);
                assert(before.filter(stays(mid.viewport)).contains(shot));
                before.lemma_filter_contains_rev(stays(mid.viewport), shot);
                lemma_on_screen_in_reach(shot.pos, mid.viewport);
            }
        }
        TickReport { running: true, fired: intents.fire_pressed, hurt, reset: false, destroyed }
    }
}

} // verus!
