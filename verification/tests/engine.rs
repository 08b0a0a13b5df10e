use blasteroids::engine::{
    advance_asteroids, advance_projectiles, expire_projectiles, find_hit, fire, replenish, speed_range, strike_player,
    POPULATION_FLOOR, PROJECTILE_RADIUS, PROJECTILE_SPEED, SCORE_BONUS,
};
use blasteroids::entity::{Asteroid, AsteroidSize, Projectile, Span};
use blasteroids::geometry::Point;
use blasteroids::player::Player;
use rand::rngs::StdRng;
use rand::SeedableRng;

fn outline() -> Vec<Point> {
    vec![Point { x: 0, y: -30 }, Point { x: 30, y: 0 }, Point { x: 0, y: 30 }, Point { x: -30, y: 0 }]
}

fn rock_at(pos: (i64, i64), size: AsteroidSize) -> Asteroid {
    Asteroid { pos, vel: (0, 0), angle: 0, shape: outline(), radius: 30_000, size }
}

fn shot_at(pos: (i64, i64)) -> Projectile {
    Projectile { pos, vel: (0, 0), angle: 0, radius: 3000 }
}

#[test]
fn the_constants_of_the_engine() {
    assert_eq!(POPULATION_FLOOR, 15);
    assert_eq!(SCORE_BONUS, 10);
    assert_eq!(PROJECTILE_SPEED, 9000);
    assert_eq!(PROJECTILE_RADIUS, 3000);
    assert_eq!(speed_range(), Span { start: 1000, end: 3000 });
}

#[test]
fn a_shot_leaves_the_ship_the_way_it_faces() {
    let up = Player::new((1280, 840));
    assert_eq!(fire(&up), Projectile { pos: (640_000, 420_000), vel: (0, -9000), angle: 0, radius: 3000 });
    let right = Player { angle: 1571, pos: (5, 6), ..up };
    assert_eq!(fire(&right), Projectile { pos: (5, 6), vel: (9000, 0), angle: 1571, radius: 3000 });
    let askew = Player { angle: 785, ..up };
    assert_eq!(fire(&askew).vel, (6354, -6354));
}

#[test]
fn all_projectiles_move() {
    let mut shots = vec![
        Projectile { pos: (0, 0), vel: (9000, 0), angle: 1571, radius: 3000 },
        Projectile { pos: (100, 200), vel: (0, -9000), angle: 0, radius: 3000 },
    ];
    advance_projectiles(&mut shots);
    assert_eq!(shots[0].pos, (9000, 0));
    assert_eq!(shots[1].pos, (100, -8800));
    assert_eq!(shots.len(), 2);
    let mut none: Vec<Projectile> = Vec::new();
    advance_projectiles(&mut none);
    assert!(none.is_empty());
}

#[test]
fn all_asteroids_move_turn_and_wrap() {
    let mut rocks = vec![
        Asteroid { vel: (1000, 2000), ..rock_at((10_000, 10_000), AsteroidSize::Large) },
        Asteroid { vel: (-3000, 0), angle: 6280, ..rock_at((-39_000, 5), AsteroidSize::Medium) },
    ];
    advance_asteroids(&mut rocks, (1280, 840));
    assert_eq!(rocks[0].pos, (11_000, 12_000));
    assert_eq!(rocks[0].angle, 10);
    assert_eq!(rocks[1].pos, (1_320_000, 5));
    assert_eq!(rocks[1].angle, 7);
    assert_eq!(rocks[1].size, AsteroidSize::Medium);
}

#[test]
fn a_vulnerable_ship_that_touches_a_rock_is_hurt() {
    let mut p = Player::new((1280, 840));
    let rocks = vec![rock_at((0, 0), AsteroidSize::Large), rock_at((640_000, 460_000), AsteroidSize::Large)];
    assert!(strike_player(&mut p, &rocks, 5000));
    assert_eq!(p.health, 2);
    assert_eq!(p.last_hit, Some(5000));
    assert_eq!(p.pos, (640_000, 420_000));
}

#[test]
fn a_ship_clear_of_all_rocks_is_not_hurt() {
    let mut p = Player::new((1280, 840));
    let rocks = vec![rock_at((0, 0), AsteroidSize::Large), rock_at((640_000, 460_001), AsteroidSize::Large)];
    assert!(!strike_player(&mut p, &rocks, 5000));
    assert_eq!(p, Player::new((1280, 840)));
    assert!(!strike_player(&mut p, &Vec::new(), 5000));
}

#[test]
fn several_rocks_do_the_damage_of_one() {
    let mut p = Player::new((1280, 840));
    let rocks = vec![
        rock_at((640_000, 420_000), AsteroidSize::Large),
        rock_at((641_000, 420_000), AsteroidSize::Medium),
        rock_at((640_000, 421_000), AsteroidSize::Large),
    ];
    assert!(strike_player(&mut p, &rocks, 5000));
    assert_eq!(p.health, 2);
}

#[test]
fn an_invulnerable_ship_is_not_hurt() {
    let mut p = Player { health: 2, last_hit: Some(5000), ..Player::new((1280, 840)) };
    let rocks = vec![rock_at((640_000, 420_000), AsteroidSize::Large)];
    assert!(!strike_player(&mut p, &rocks, 5016));
    assert!(!strike_player(&mut p, &rocks, 5799));
    assert_eq!(p.health, 2);
    assert_eq!(p.last_hit, Some(5000));
    assert!(strike_player(&mut p, &rocks, 5800));
    assert_eq!(p.health, 1);
    assert_eq!(p.last_hit, Some(5800));
    assert!(!strike_player(&mut p, &rocks, 6000));
    assert!(strike_player(&mut p, &rocks, 6600));
    assert_eq!(p.health, 0);
}

#[test]
fn no_hit_where_nothing_overlaps() {
    let rocks = vec![rock_at((0, 0), AsteroidSize::Large), rock_at((500_000, 0), AsteroidSize::Large)];
    let shots = vec![shot_at((100_000, 0)), shot_at((0, 33_001))];
    assert_eq!(find_hit(&rocks, &shots), None);
    assert_eq!(find_hit(&rocks, &Vec::new()), None);
    assert_eq!(find_hit(&Vec::new(), &shots), None);
}

#[test]
fn the_first_hit_goes_by_rock_then_by_shot() {
    let rocks = vec![
        rock_at((0, 0), AsteroidSize::Large),
        rock_at((500_000, 0), AsteroidSize::Large),
        rock_at((900_000, 0), AsteroidSize::Large),
    ];
    let shots = vec![shot_at((900_000, 0)), shot_at((500_000, 10)), shot_at((500_000, 0)), shot_at((0, 200_000))];
    assert_eq!(find_hit(&rocks, &shots), Some((1, 1)));
    let fewer = vec![shot_at((900_000, 0)), shot_at((0, 200_000))];
    assert_eq!(find_hit(&rocks, &fewer), Some((2, 0)));
    let touching = vec![shot_at((0, 200_000)), shot_at((0, 33_000))];
    assert_eq!(find_hit(&rocks, &touching), Some((0, 1)));
}

#[test]
fn replenish_tops_the_field_up_to_the_floor() {
    let mut rng = StdRng::seed_from_u64(31);
    let shapes = vec![outline()];
    let mut rocks = vec![rock_at((1, 2), AsteroidSize::Medium), rock_at((3, 4), AsteroidSize::Large)];
    replenish(&mut rocks, &mut rng, &shapes, (1280, 840));
    assert_eq!(rocks.len(), 15);
    assert_eq!(rocks[0], rock_at((1, 2), AsteroidSize::Medium));
    assert_eq!(rocks[1], rock_at((3, 4), AsteroidSize::Large));
    for rock in rocks[2..].iter() {
        assert_eq!(rock.size, AsteroidSize::Large);
        let (x, y) = rock.pos;
        let beside = (x == -40_000 || x == 1_320_000) && 0 <= y && y < 840_000;
        let above_or_below = (y == -40_000 || y == 880_000) && 0 <= x && x < 1_280_000;
        assert!(beside || above_or_below);
        assert!(0 <= rock.angle && rock.angle < 6283);
        assert!(rock.radius >= 33_000 && rock.radius < 45_000);
        assert!(rock.is_valid());
    }
}

#[test]
fn replenish_leaves_a_full_field_alone() {
    let mut rng = StdRng::seed_from_u64(37);
    let shapes = vec![outline()];
    let mut rocks: Vec<Asteroid> = (0..17).map(|i| rock_at((i, i), AsteroidSize::Medium)).collect();
    replenish(&mut rocks, &mut rng, &shapes, (1280, 840));
    assert_eq!(rocks.len(), 17);
    for (i, rock) in rocks.iter().enumerate() {
        assert_eq!(*rock, rock_at((i as i64, i as i64), AsteroidSize::Medium));
    }
    let mut exact: Vec<Asteroid> = (0..15).map(|i| rock_at((i, i), AsteroidSize::Large)).collect();
    replenish(&mut exact, &mut rng, &shapes, (1280, 840));
    assert_eq!(exact.len(), 15);
}

#[test]
fn shots_outside_the_viewport_expire() {
    let mut shots = vec![
        shot_at((0, 0)),
        shot_at((-1, 0)),
        shot_at((640_000, 420_000)),
        shot_at((1_280_001, 5)),
        shot_at((1_280_000, 840_000)),
        shot_at((5, 840_001)),
        shot_at((5, -1)),
    ];
    expire_projectiles(&mut shots, (1280, 840));
    assert_eq!(shots, vec![shot_at((0, 0)), shot_at((640_000, 420_000)), shot_at((1_280_000, 840_000))]);
    expire_projectiles(&mut shots, (640, 420));
    assert_eq!(shots, vec![shot_at((0, 0)), shot_at((640_000, 420_000))]);
    expire_projectiles(&mut shots, (640, 419));
    assert_eq!(shots, vec![shot_at((0, 0))]);
    expire_projectiles(&mut shots, (0, 0));
    assert_eq!(shots, vec![shot_at((0, 0))]);
}
