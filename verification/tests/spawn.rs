use blasteroids::chance::{draw_index, index_bound, index_of_draw};
use blasteroids::entity::{Asteroid, AsteroidSize, Span};
use blasteroids::geometry::Point;
use blasteroids::spawn::{
    pick_random_velocity, pick_scale, pick_spawn_point, spawn_asteroid, spawn_at, spawn_point_on, split_asteroid,
};
use rand::rngs::StdRng;
use rand::SeedableRng;

fn outline_a() -> Vec<Point> {
    [(0, -34), (18, -30), (28, -16), (20, -6), (30, 4), (18, 18), (4, 12), (-4, 30), (0, -34)]
        .iter()
        .map(|&(x, y)| Point { x, y })
        .collect()
}

fn outline_b() -> Vec<Point> {
    [(-4, -28), (16, -24), (24, -12), (12, -8), (30, -2), (-32, 0), (-4, -28)]
        .iter()
        .map(|&(x, y)| Point { x, y })
        .collect()
}

fn scaled_by(base: &[Point], scale: i64) -> Vec<Point> {
    let round = |v: i64| if v >= 0 { (v + 500) / 1000 } else { -((-v + 500) / 1000) };
    base.iter().map(|p| Point { x: round(p.x as i64 * scale) as i32, y: round(p.y as i64 * scale) as i32 }).collect()
}

fn radius_of(shape: &[Point]) -> u32 {
    let far = shape.iter().map(|p| (p.x as i64).pow(2) + (p.y as i64).pow(2)).max().unwrap_or(0);
    let target = far as u128 * 1_000_000;
    let mut r = (target as f64).sqrt() as u128;
    while r * r > target {
        r -= 1;
    }
    while (r + 1) * (r + 1) <= target {
        r += 1;
    }
    r as u32
}

#[test]
fn spawn_point_on_each_edge() {
    let viewport = (1280, 840);
    assert_eq!(spawn_point_on(0, 123_456, viewport, 40_000), (-40_000, 123_456));
    assert_eq!(spawn_point_on(1, 123_456, viewport, 40_000), (1_320_000, 123_456));
    assert_eq!(spawn_point_on(2, 123_456, viewport, 40_000), (123_456, -40_000));
    assert_eq!(spawn_point_on(3, 123_456, viewport, 40_000), (123_456, 880_000));
    assert_eq!(spawn_point_on(3, 0, viewport, 0), (0, 840_000));
    assert_eq!(spawn_point_on(1, 7, (u32::MAX, 1), u32::MAX), (4_294_967_295_000 + 4_294_967_295, 7));
}

#[test]
fn picked_spawn_points_lie_just_off_screen() {
    let mut rng = StdRng::seed_from_u64(7);
    let mut edges = [0usize; 4];
    for _ in 0..400 {
        let (x, y) = pick_spawn_point(&mut rng, (1280, 840), 40_000);
        if x == -40_000 {
            edges[0] += 1;
            assert!(0 <= y && y < 840_000);
        } else if x == 1_320_000 {
            edges[1] += 1;
            assert!(0 <= y && y < 840_000);
        } else if y == -40_000 {
            edges[2] += 1;
            assert!(0 <= x && x < 1_280_000);
        } else {
            edges[3] += 1;
            assert_eq!(y, 880_000);
            assert!(0 <= x && x < 1_280_000);
        }
    }
    for count in edges {
        assert!(count > 50);
    }
}

#[test]
fn picked_spawn_points_vary() {
    let mut rng = StdRng::seed_from_u64(11);
    let first = pick_spawn_point(&mut rng, (1280, 840), 40_000);
    let mut differs = false;
    for _ in 0..50 {
        if pick_spawn_point(&mut rng, (1280, 840), 40_000) != first {
            differs = true;
        }
    }
    assert!(differs);
}

#[test]
fn spawn_points_of_a_viewport_without_size() {
    let mut rng = StdRng::seed_from_u64(3);
    for _ in 0..50 {
        let p = pick_spawn_point(&mut rng, (0, 0), 40_000);
        assert!(p == (-40_000, 0) || p == (40_000, 0) || p == (0, -40_000) || p == (0, 40_000));
    }
}

#[test]
fn picked_velocities_have_a_speed_of_the_range() {
    let mut rng = StdRng::seed_from_u64(5);
    let mut slowest = f64::MAX;
    let mut fastest: f64 = 0.0;
    for _ in 0..400 {
        let (vx, vy) = pick_random_velocity(&mut rng, Span { start: 1000, end: 3000 });
        assert!(-3000 <= vx && vx <= 3000);
        assert!(-3000 <= vy && vy <= 3000);
        let speed = ((vx * vx + vy * vy) as f64).sqrt();
        assert!(speed > 990.0 && speed < 3010.0);
        slowest = slowest.min(speed);
        fastest = fastest.max(speed);
    }
    assert!(slowest < 1500.0);
    assert!(fastest > 2500.0);
}

#[test]
fn picked_velocities_point_all_ways() {
    let mut rng = StdRng::seed_from_u64(9);
    let mut quadrants = [false; 4];
    for _ in 0..200 {
        let (vx, vy) = pick_random_velocity(&mut rng, Span { start: 1000, end: 3000 });
        let q = if vx >= 0 { 0 } else { 1 } + if vy >= 0 { 0 } else { 2 };
        quadrants[q] = true;
    }
    assert_eq!(quadrants, [true; 4]);
}

#[test]
fn a_range_of_one_speed_gives_that_speed() {
    let mut rng = StdRng::seed_from_u64(1);
    for _ in 0..50 {
        let (vx, vy) = pick_random_velocity(&mut rng, Span { start: 0, end: 1 });
        assert_eq!((vx, vy), (0, 0));
    }
}

#[test]
fn picked_scales_fit_the_size_class() {
    let mut rng = StdRng::seed_from_u64(13);
    let mut large = Vec::new();
    let mut medium = Vec::new();
    for _ in 0..200 {
        let l = pick_scale(&mut rng, AsteroidSize::Large);
        assert!(1100 <= l && l < 1500);
        large.push(l);
        let m = pick_scale(&mut rng, AsteroidSize::Medium);
        assert!(700 <= m && m < 1000);
        medium.push(m);
    }
    assert!(large.iter().any(|&l| l != 1100));
    assert!(large.iter().min() != large.iter().max());
    assert!(medium.iter().any(|&m| m != 700));
    assert!(medium.iter().min() != medium.iter().max());
}

#[test]
fn drawn_indices_stay_below_the_length() {
    let mut rng = StdRng::seed_from_u64(17);
    let mut seen = [false; 3];
    for _ in 0..100 {
        let i = draw_index(&mut rng, 3);
        assert!(i < 3);
        seen[i] = true;
    }
    assert_eq!(seen, [true; 3]);
    for _ in 0..10 {
        assert_eq!(draw_index(&mut rng, 1), 0);
    }
}

#[test]
fn the_bound_of_an_index_draw_is_the_length() {
    assert_eq!(index_bound(1), 1);
    assert_eq!(index_bound(3), 3);
    assert_eq!(index_bound(0), 0);
    assert_eq!(index_bound(i64::MAX as usize), i64::MAX);
    assert_eq!(index_bound(usize::MAX), i64::MAX);
}

#[test]
fn a_drawn_number_is_the_index() {
    assert_eq!(index_of_draw(0, 1), 0);
    assert_eq!(index_of_draw(0, 3), 0);
    assert_eq!(index_of_draw(2, 3), 2);
    assert_eq!(index_of_draw(i64::MAX - 1, usize::MAX), (i64::MAX - 1) as usize);
}

#[test]
fn the_same_seed_gives_the_same_draws() {
    let mut a = StdRng::seed_from_u64(99);
    let mut b = StdRng::seed_from_u64(99);
    for _ in 0..20 {
        assert_eq!(pick_spawn_point(&mut a, (1280, 840), 40_000), pick_spawn_point(&mut b, (1280, 840), 40_000));
    }
}

#[test]
fn cast_scales_the_outline_and_derives_the_radius() {
    let a = Asteroid::cast(&outline_a(), AsteroidSize::Large, (1, 2), (3, 4), 5, 1500);
    assert_eq!(a.pos, (1, 2));
    assert_eq!(a.vel, (3, 4));
    assert_eq!(a.angle, 5);
    assert_eq!(a.size, AsteroidSize::Large);
    assert_eq!(a.shape, scaled_by(&outline_a(), 1500));
    assert_eq!(a.shape[0], Point { x: 0, y: -51 });
    assert_eq!(a.shape[1], Point { x: 27, y: -45 });
    assert_eq!(a.radius, 52_478);
    let b = Asteroid::cast(&outline_a(), AsteroidSize::Medium, (0, 0), (0, 0), 0, 1000);
    assert_eq!(b.shape, outline_a());
    assert_eq!(b.radius, 34_985);
}

#[test]
fn cast_of_an_empty_outline() {
    let a = Asteroid::cast(&[], AsteroidSize::Medium, (0, 0), (0, 0), 0, 700);
    assert_eq!(a.shape, Vec::new());
    assert_eq!(a.radius, 0);
}

#[test]
fn cast_holds_a_huge_radius_at_the_largest() {
    let far = [Point { x: 5_000_000, y: 0 }];
    let a = Asteroid::cast(&far, AsteroidSize::Large, (0, 0), (0, 0), 0, 1000);
    assert_eq!(a.radius, u32::MAX);
    let near = [Point { x: 4_000_000, y: 0 }];
    let b = Asteroid::cast(&near, AsteroidSize::Large, (0, 0), (0, 0), 0, 1000);
    assert_eq!(b.radius, 4_000_000_000);
}

#[test]
fn spawned_asteroids_are_scaled_within_their_class() {
    let mut rng = StdRng::seed_from_u64(21);
    let mut scales_seen = std::collections::BTreeSet::new();
    for _ in 0..100 {
        let a = spawn_asteroid(&outline_a(), AsteroidSize::Large, (10, 20), (30, 40), 50, &mut rng);
        assert_eq!(a.pos, (10, 20));
        assert_eq!(a.vel, (30, 40));
        assert_eq!(a.angle, 50);
        assert_eq!(a.size, AsteroidSize::Large);
        let scale = (1100..1500).find(|&s| scaled_by(&outline_a(), s) == a.shape);
        assert!(scale.is_some());
        scales_seen.insert(scale.unwrap());
        assert_eq!(a.radius, radius_of(&a.shape));
        assert!(a.radius >= 37_000 && a.radius <= 53_000);
    }
    assert!(scales_seen.len() > 1);
}

#[test]
fn spawn_at_picks_outline_velocity_and_rotation() {
    let mut rng = StdRng::seed_from_u64(23);
    let shapes = vec![outline_a(), outline_b()];
    let mut used = [false; 2];
    for _ in 0..100 {
        let a = spawn_at(&mut rng, &shapes, AsteroidSize::Medium, (5, 6), Span { start: 1000, end: 3000 });
        assert_eq!(a.pos, (5, 6));
        assert_eq!(a.size, AsteroidSize::Medium);
        assert!(0 <= a.angle && a.angle < 6283);
        let speed = ((a.vel.0 * a.vel.0 + a.vel.1 * a.vel.1) as f64).sqrt();
        assert!(speed > 990.0 && speed < 3010.0);
        let from = (0..2).find(|&k| (700..1000).any(|s| scaled_by(&shapes[k], s) == a.shape));
        assert!(from.is_some());
        used[from.unwrap()] = true;
        assert_eq!(a.radius, radius_of(&a.shape));
    }
    assert_eq!(used, [true; 2]);
}

#[test]
fn a_large_asteroid_splits_into_two_medium_ones() {
    let mut rng = StdRng::seed_from_u64(27);
    let shapes = vec![outline_a(), outline_b()];
    let parent = Asteroid::cast(&outline_a(), AsteroidSize::Large, (123_000, 456_000), (1000, 0), 77, 1300);
    let pieces = split_asteroid(&parent, &mut rng, &shapes, Span { start: 1000, end: 3000 });
    assert_eq!(pieces.len(), 2);
    for piece in pieces.iter() {
        assert_eq!(piece.size, AsteroidSize::Medium);
        assert_eq!(piece.pos, (123_000, 456_000));
        assert!(0 <= piece.angle && piece.angle < 6283);
        assert!((0..2).any(|k| (700..1000).any(|s| scaled_by(&shapes[k], s) == piece.shape)));
        assert_eq!(piece.radius, radius_of(&piece.shape));
    }
    assert!(pieces[0].vel != pieces[1].vel || pieces[0].angle != pieces[1].angle);
}

#[test]
fn a_medium_asteroid_splits_into_nothing() {
    let mut rng = StdRng::seed_from_u64(29);
    let shapes = vec![outline_a()];
    let parent = Asteroid::cast(&outline_a(), AsteroidSize::Medium, (123_000, 456_000), (1000, 0), 77, 800);
    assert!(split_asteroid(&parent, &mut rng, &shapes, Span { start: 1000, end: 3000 }).is_empty());
    let none: Vec<Vec<Point>> = Vec::new();
    assert!(split_asteroid(&parent, &mut rng, &none, Span { start: 5, end: 5 }).is_empty());
}
