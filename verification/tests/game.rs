use asteroids::entity::{Asteroid, Bullet, Buttons, Player};
use asteroids::fixed::Fixed;
use asteroids::game::{center, Cue, Game};
use asteroids::spawn::clearance;
use asteroids::vec2::Vec2;
use asteroids::world::ShapeLibrary;
use rand::rngs::StdRng;
use rand::SeedableRng;

fn idle() -> Buttons {
    Buttons { forward: false, backward: false, left: false, right: false, fire: false }
}

fn firing() -> Buttons {
    Buttons { fire: true, ..idle() }
}

fn world() -> Vec2 {
    Vec2::from_ints(1000, 1000)
}

fn library() -> ShapeLibrary {
    let square = vec![
        Vec2::from_ints(0, 0),
        Vec2::from_ints(10000, 0),
        Vec2::from_ints(10000, 0),
        Vec2::from_ints(10000, 10000),
    ];
    let line = vec![Vec2::from_ints(-10000, 0), Vec2::from_ints(10000, 0)];
    ShapeLibrary::new(vec![square, line]).unwrap()
}

fn rock(x: i32, y: i32, radius: i32) -> Asteroid {
    Asteroid {
        pos: Vec2::from_ints(x, y),
        vel: Vec2::zero(),
        radius: Fixed::from_int(radius),
        model_index: 1,
    }
}

fn shot(x: i32, y: i32) -> Bullet {
    Bullet { pos: Vec2::from_ints(x, y), vel: Vec2::zero(), dir: Fixed::zero() }
}

fn ship() -> Player {
    Player::at_rest(Vec2::from_ints(500, 500), 0)
}

fn game_with(seed: u64, asteroids: Vec<Asteroid>, bullets: Vec<Bullet>) -> Game {
    Game::with_entities(world(), library(), StdRng::seed_from_u64(seed), ship(), asteroids, bullets, 0)
        .unwrap()
}

fn in_range(value: Fixed, low: i64, high: i64) -> bool {
    low * 1_000_000 <= value.raw && value.raw < high * 1_000_000
}

fn assert_newly_placed(asteroid: &Asteroid, ship_at: Vec2) {
    assert!(in_range(asteroid.pos.x, 0, 1000) && in_range(asteroid.pos.y, 0, 1000));
    assert!(in_range(asteroid.vel.x, 50, 200) && in_range(asteroid.vel.y, 50, 200));
    assert!(in_range(asteroid.radius, 40, 80));
    assert!(asteroid.model_index < 2);
    assert!(!asteroid.pos.within(ship_at, clearance(asteroid.radius)));
}

#[test]
fn the_middle_of_the_world_is_half_its_extent() {
    assert_eq!(center(world()), Vec2::from_ints(500, 500));
    assert_eq!(center(Vec2::from_ints(300, 100)), Vec2::from_ints(150, 50));
}

#[test]
fn a_new_game_has_a_resting_ship_and_one_distant_asteroid() {
    for seed in 0..200 {
        let game = Game::new(world(), library(), StdRng::seed_from_u64(seed), 1234);
        assert_eq!(game.player(), Player::at_rest(Vec2::from_ints(500, 500), 1234));
        assert_eq!(game.player().vel, Vec2::zero());
        assert_eq!(game.player().dir, Fixed::zero());
        assert!(game.bullets().is_empty());
        assert_eq!(game.score(), 0);
        assert!(!game.is_game_over());
        assert_eq!(game.size(), world());
        assert_eq!(game.shapes().len(), 2);
        assert_eq!(game.asteroids().len(), 1);
        assert_newly_placed(&game.asteroids()[0], Vec2::from_ints(500, 500));
    }
}

#[test]
fn what_is_drawn_differs_from_game_to_game() {
    let first = Game::new(world(), library(), StdRng::seed_from_u64(0), 0).asteroids()[0];
    let mut positions_differ = false;
    let mut speeds_differ = false;
    let mut radii_differ = false;
    let mut shapes_differ = false;
    for seed in 1..50 {
        let other = Game::new(world(), library(), StdRng::seed_from_u64(seed), 0).asteroids()[0];
        positions_differ |= other.pos != first.pos;
        speeds_differ |= other.vel != first.vel;
        radii_differ |= other.radius != first.radius;
        shapes_differ |= other.model_index != first.model_index;
    }
    assert!(positions_differ && speeds_differ && radii_differ && shapes_differ);
}

#[test]
fn the_same_seed_gives_the_same_game() {
    let a = Game::new(world(), library(), StdRng::seed_from_u64(99), 0);
    let b = Game::new(world(), library(), StdRng::seed_from_u64(99), 0);
    assert_eq!(a.asteroids(), b.asteroids());
}

#[test]
fn entities_must_refer_to_outlines_that_exist() {
    let bad = Asteroid { model_index: 2, ..rock(100, 100, 40) };
    let game = Game::with_entities(
        world(),
        library(),
        StdRng::seed_from_u64(1),
        ship(),
        vec![rock(100, 100, 40), bad],
        Vec::new(),
        0,
    );
    assert!(game.is_none());
    let game = Game::with_entities(
        world(),
        library(),
        StdRng::seed_from_u64(1),
        ship(),
        vec![rock(100, 100, 40)],
        vec![shot(1, 2)],
        17,
    )
    .unwrap();
    assert_eq!(game.asteroids(), &vec![rock(100, 100, 40)]);
    assert_eq!(game.bullets(), &vec![shot(1, 2)]);
    assert_eq!(game.score(), 17);
    assert_eq!(game.player(), ship());
    assert!(!game.is_game_over());
}

#[test]
fn an_asteroid_crossing_the_edge_wraps_to_zero_in_a_frame() {
    let asteroid = Asteroid { vel: Vec2::from_ints(50, 0), ..rock(990, 500, 40) };
    let mut game = game_with(3, vec![asteroid], Vec::new());
    let report = game.tick(idle(), Fixed::from_int(1), 16);
    assert!(report.running);
    assert!(report.cues.is_empty());
    assert_eq!(game.asteroids().len(), 1);
    assert_eq!(game.asteroids()[0].pos, Vec2::from_ints(0, 500));
    assert_eq!(game.asteroids()[0].vel, Vec2::from_ints(50, 0));
}

#[test]
fn bullets_and_ship_wrap_too() {
    let bullet = Bullet { pos: Vec2::from_ints(5, 995), vel: Vec2::from_ints(-10, 10), dir: Fixed::zero() };
    let player = Player {
        pos: Vec2::from_ints(995, 5),
        vel: Vec2::from_ints(10, -10),
        dir: Fixed::zero(),
        last_shoot: 0,
    };
    let mut game = Game::with_entities(
        world(),
        library(),
        StdRng::seed_from_u64(3),
        player,
        Vec::new(),
        vec![bullet],
        0,
    )
    .unwrap();
    game.tick(idle(), Fixed::from_int(1), 16);
    assert_eq!(game.bullets()[0].pos, Vec2::from_ints(1000, 0));
    assert_eq!(game.player().pos, Vec2::from_ints(0, 1000));
}

#[test]
fn firing_is_limited_by_the_delay() {
    let mut game = game_with(4, Vec::new(), Vec::new());
    let dt = Fixed::from_raw(16_000);
    let report = game.tick(firing(), dt, 50);
    assert!(report.cues.is_empty());
    assert!(game.bullets().is_empty());
    let report = game.tick(firing(), dt, 100);
    assert_eq!(report.cues, vec![Cue::Shoot]);
    assert_eq!(game.bullets().len(), 1);
    assert_eq!(game.player().last_shoot, 100);
    for now in [116, 132, 148, 164, 180, 199] {
        let report = game.tick(firing(), dt, now);
        assert!(report.cues.is_empty());
        assert_eq!(game.bullets().len(), 1);
    }
    let report = game.tick(firing(), dt, 200);
    assert_eq!(report.cues, vec![Cue::Shoot]);
    assert_eq!(game.bullets().len(), 2);
    let report = game.tick(idle(), dt, 900);
    assert!(report.cues.is_empty());
    assert_eq!(game.bullets().len(), 2);
}

#[test]
fn a_new_bullet_starts_at_the_ship_with_the_muzzle_speed() {
    let mut game = game_with(4, Vec::new(), Vec::new());
    game.tick(firing(), Fixed::zero(), 100);
    let bullet = game.bullets()[0];
    assert_eq!(bullet.pos, Vec2::from_ints(500, 500));
    assert_eq!(bullet.vel, Vec2::from_ints(0, -1000));
    assert_eq!(bullet.dir, Fixed::zero());
}

#[test]
fn a_hit_removes_bullet_and_asteroid_and_leaves_fragments() {
    let mut counts_seen = [false; 5];
    for seed in 0..60 {
        let parent = Asteroid { vel: Vec2::from_ints(5, 7), ..rock(200, 800, 90) };
        let mut game = game_with(seed, vec![parent], vec![shot(900, 100), shot(210, 790)]);
        let report = game.tick(idle(), Fixed::zero(), 16);
        assert!(report.running);
        assert_eq!(report.cues, vec![Cue::Collision]);
        assert_eq!(game.score(), 1);
        assert_eq!(game.bullets(), &vec![shot(900, 100)]);
        let count = game.asteroids().len();
        assert!((2..=4).contains(&count));
        counts_seen[count] = true;
        let radius = Fixed::from_int(90).over(Fixed::from_count(count));
        for child in game.asteroids().iter() {
            assert_eq!(child.radius, radius);
            assert!(child.model_index < 2);
        }
    }
    assert!(counts_seen[2] && counts_seen[3] && counts_seen[4]);
}

#[test]
fn fragments_start_near_their_parent_with_extra_speed() {
    for seed in 0..60 {
        let parent = Asteroid { vel: Vec2::from_ints(5, 7), ..rock(200, 800, 31) };
        let mut field = vec![parent];
        // a second asteroid far away keeps the fragments from being the whole field
        field.push(rock(800, 200, 20));
        let mut game = game_with(seed, field, vec![shot(200, 800)]);
        game.tick(idle(), Fixed::zero(), 16);
        let all = game.asteroids();
        assert_eq!(all[0].pos, Vec2::from_ints(800, 200));
        let count = all.len() - 1;
        let radius = Fixed::from_int(31).over(Fixed::from_count(count));
        let mut nudged = 0;
        for child in all[1..].iter() {
            assert_eq!(child.radius, radius);
            // fragments overlap each other, so they are pushed apart in the same frame;
            // one that was not pushed lies within one fragment radius of the parent
            let dx = child.pos.x.raw - parent.pos.x.raw;
            let dy = child.pos.y.raw - parent.pos.y.raw;
            if 0 <= dx && dx < radius.raw && 0 <= dy && dy < radius.raw {
                let vx = child.vel.x.raw - parent.vel.x.raw;
                let vy = child.vel.y.raw - parent.vel.y.raw;
                assert!(10_000_000 <= vx && vx < 75_000_000);
                assert!(10_000_000 <= vy && vy < 75_000_000);
            } else {
                nudged += 1;
            }
        }
        assert!(nudged <= count);
    }
}

#[test]
fn a_small_asteroid_is_replaced_by_a_new_one() {
    for seed in 0..60 {
        let mut game = game_with(seed, vec![rock(200, 800, 30)], vec![shot(200, 800)]);
        let report = game.tick(idle(), Fixed::zero(), 16);
        assert_eq!(report.cues, vec![Cue::Collision]);
        assert_eq!(game.score(), 1);
        assert!(game.bullets().is_empty());
        assert_eq!(game.asteroids().len(), 1);
        assert_newly_placed(&game.asteroids()[0], Vec2::from_ints(500, 500));
    }
}

fn grid(count: usize) -> Vec<Asteroid> {
    let mut field = Vec::new();
    for i in 0..count {
        let x = 20 + 40 * (i % 20) as i32;
        let y = 20 + 40 * (i / 20) as i32;
        field.push(rock(x, y, 5));
    }
    field
}

#[test]
fn a_full_field_leaves_nothing_behind() {
    let mut game = game_with(5, grid(51), vec![shot(20, 20)]);
    let report = game.tick(idle(), Fixed::zero(), 16);
    assert_eq!(report.cues, vec![Cue::Collision]);
    assert_eq!(game.score(), 1);
    assert_eq!(game.asteroids().len(), 50);
    assert_eq!(game.asteroids()[..], grid(51)[1..]);
}

#[test]
fn a_field_below_the_cap_is_refilled() {
    let mut game = game_with(5, grid(50), vec![shot(20, 20)]);
    game.tick(idle(), Fixed::zero(), 16);
    assert_eq!(game.score(), 1);
    assert_eq!(game.asteroids().len(), 50);
    // the new asteroid may overlap old ones and push them, but nothing changes a radius
    for old in game.asteroids()[..49].iter() {
        assert_eq!(old.radius, Fixed::from_int(5));
    }
    assert!(in_range(game.asteroids()[49].radius, 40, 80));
}

#[test]
fn several_hits_in_one_frame_count_one_each() {
    let field = vec![rock(100, 100, 20), rock(300, 100, 20), rock(100, 300, 20)];
    let bullets = vec![shot(300, 100), shot(100, 100), shot(700, 700)];
    let mut game = game_with(6, field, bullets);
    let report = game.tick(idle(), Fixed::zero(), 16);
    assert_eq!(report.cues, vec![Cue::Collision, Cue::Collision]);
    assert_eq!(game.score(), 2);
    assert_eq!(game.bullets(), &vec![shot(700, 700)]);
    assert_eq!(game.asteroids().len(), 3);
    assert_eq!(game.asteroids()[0].pos, Vec2::from_ints(100, 300));
}

#[test]
fn an_asteroid_on_the_ship_ends_the_game() {
    let mut game = game_with(7, vec![rock(530, 540, 40), rock(100, 100, 40)], vec![shot(900, 900)]);
    let report = game.tick(idle(), Fixed::zero(), 16);
    assert!(!report.running);
    assert_eq!(report.cues, vec![Cue::GameOver]);
    assert!(game.is_game_over());
    let asteroids = game.asteroids().clone();
    let bullets = game.bullets().clone();
    let player = game.player();
    for now in [32, 48, 500] {
        let report = game.tick(
            Buttons { forward: true, backward: false, left: true, right: false, fire: true },
            Fixed::from_int(1),
            now,
        );
        assert!(!report.running);
        assert!(report.cues.is_empty());
        assert!(game.is_game_over());
        assert_eq!(game.asteroids(), &asteroids);
        assert_eq!(game.bullets(), &bullets);
        assert_eq!(game.player(), player);
        assert_eq!(game.score(), 0);
    }
}

#[test]
fn a_destroyed_asteroid_no_longer_ends_the_game() {
    let mut game = game_with(8, vec![rock(530, 540, 25)], vec![shot(530, 540)]);
    let report = game.tick(idle(), Fixed::zero(), 16);
    assert!(report.running);
    assert_eq!(report.cues, vec![Cue::Collision]);
    assert!(!game.is_game_over());
}

#[test]
fn the_sounds_come_in_order() {
    let field = vec![rock(100, 100, 20), rock(530, 540, 40)];
    let mut game = game_with(9, field, vec![shot(100, 100)]);
    let report = game.tick(firing(), Fixed::zero(), 100);
    assert_eq!(report.cues, vec![Cue::Shoot, Cue::Collision, Cue::GameOver]);
    assert!(!report.running);
}

#[test]
fn reset_starts_over() {
    let mut game = game_with(10, vec![rock(530, 540, 40), rock(100, 100, 40)], vec![shot(900, 900)]);
    game.tick(idle(), Fixed::zero(), 16);
    assert!(game.is_game_over());
    game.reset(777);
    assert!(!game.is_game_over());
    assert_eq!(game.score(), 0);
    assert!(game.bullets().is_empty());
    assert_eq!(game.player(), Player::at_rest(Vec2::from_ints(500, 500), 777));
    assert_eq!(game.asteroids().len(), 1);
    assert_newly_placed(&game.asteroids()[0], Vec2::from_ints(500, 500));
    assert_eq!(game.size(), world());
    let report = game.tick(idle(), Fixed::from_raw(16_000), 800);
    assert_eq!(report.running, !game.is_game_over());
}

#[test]
fn overlapping_asteroids_are_pushed_apart_in_a_frame() {
    let a = Asteroid { vel: Vec2::from_ints(50, 0), ..rock(100, 100, 40) };
    let b = Asteroid { vel: Vec2::from_ints(0, 50), ..rock(120, 100, 40) };
    let mut game = game_with(11, vec![a, b], Vec::new());
    game.tick(idle(), Fixed::zero(), 16);
    let after = game.asteroids();
    assert_eq!(after[0].pos, Vec2::from_ints(40, 100));
    assert_eq!(after[1].pos, Vec2::from_ints(180, 100));
    assert_ne!(after[0].vel, a.vel);
    assert_ne!(after[1].vel, b.vel);
}

#[test]
fn ship_and_bullets_stay_inside_the_world() {
    let mut game = Game::new(world(), library(), StdRng::seed_from_u64(12), 0);
    let mut now = 0;
    for step in 0..400 {
        now += 33;
        let buttons = Buttons {
            forward: step % 3 != 0,
            backward: step % 7 == 0,
            left: step % 2 == 0,
            right: step % 5 == 0,
            fire: true,
        };
        let report = game.tick(buttons, Fixed::from_raw(33_000), now);
        let size = game.size();
        let ship = game.player().pos;
        assert!(0 <= ship.x.raw && ship.x.raw <= size.x.raw);
        assert!(0 <= ship.y.raw && ship.y.raw <= size.y.raw);
        for bullet in game.bullets().iter() {
            assert!(0 <= bullet.pos.x.raw && bullet.pos.x.raw <= size.x.raw);
            assert!(0 <= bullet.pos.y.raw && bullet.pos.y.raw <= size.y.raw);
        }
        assert_eq!(report.running, !game.is_game_over());
        if game.is_game_over() {
            game.reset(now);
        }
    }
}
