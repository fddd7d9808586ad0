use asteroids::entity::{Asteroid, Bullet, Player};
use asteroids::fixed::Fixed;
use asteroids::game::Game;
use asteroids::render::{bullet_glyph, outline_point, player_glyph, projected, raw_point};
use asteroids::trig::HALF_PI;
use asteroids::vec2::Vec2;
use asteroids::world::ShapeLibrary;
use rand::rngs::StdRng;
use rand::SeedableRng;

fn world() -> Vec2 {
    Vec2::from_ints(1000, 1000)
}

fn library() -> ShapeLibrary {
    let wedge = vec![
        Vec2::from_ints(10000, 0),
        Vec2::from_ints(0, 20000),
        Vec2::from_ints(0, 20000),
        Vec2::from_ints(-10000, 0),
    ];
    let line = vec![Vec2::from_ints(-10000, 0), Vec2::from_ints(10000, 0)];
    ShapeLibrary::new(vec![wedge, line, Vec::new()]).unwrap()
}

fn game(asteroids: Vec<Asteroid>, bullets: Vec<Bullet>, player: Player) -> Game {
    Game::with_entities(world(), library(), StdRng::seed_from_u64(1), player, asteroids, bullets, 0)
        .unwrap()
}

fn rock(x: i32, y: i32, radius: i32, model_index: usize) -> Asteroid {
    Asteroid {
        pos: Vec2::from_ints(x, y),
        vel: Vec2::zero(),
        radius: Fixed::from_int(radius),
        model_index,
    }
}

fn ship() -> Player {
    Player::at_rest(Vec2::from_ints(500, 500), 0)
}

#[test]
fn a_library_needs_outlines_in_pairs() {
    assert!(ShapeLibrary::new(Vec::new()).is_none());
    let odd = vec![Vec2::from_ints(0, 0), Vec2::from_ints(1, 0), Vec2::from_ints(1, 1)];
    let even = vec![Vec2::from_ints(0, 0), Vec2::from_ints(1, 0)];
    assert!(ShapeLibrary::new(vec![even.clone(), odd]).is_none());
    let library = ShapeLibrary::new(vec![even.clone(), Vec::new()]).unwrap();
    assert_eq!(library.len(), 2);
    assert_eq!(library.outline(0), &even);
    assert!(library.outline(1).is_empty());
}

#[test]
fn the_marks_are_in_pairs() {
    assert_eq!(player_glyph().len(), 14);
    assert_eq!(bullet_glyph().len(), 4);
    assert_eq!(raw_point(3, -4), Vec2::new(Fixed::from_raw(3), Fixed::from_raw(-4)));
    assert_eq!(player_glyph()[0], raw_point(0, -20_000));
    assert_eq!(player_glyph()[5], raw_point(-20_000, 20_000));
    assert_eq!(player_glyph()[13], raw_point(0, 20_000));
    assert_eq!(bullet_glyph()[1], raw_point(5_000, 5_000));
    assert_eq!(bullet_glyph()[3], raw_point(-5_000, 5_000));
}

#[test]
fn device_coordinates_run_from_minus_one_to_one() {
    assert_eq!(projected(Vec2::from_ints(500, 500), world()), Vec2::zero());
    assert_eq!(projected(Vec2::from_ints(0, 1000), world()), Vec2::from_ints(-1, 1));
    assert_eq!(projected(Vec2::from_ints(750, 250), world()), raw_point(500_000, -500_000));
}

#[test]
fn an_outline_point_is_scaled_by_the_radius() {
    let at = raw_point(500_000, -500_000);
    assert_eq!(
        outline_point(Vec2::from_ints(10000, 0), Fixed::from_int(40), at),
        raw_point(10_500_000, -500_000)
    );
    assert_eq!(
        outline_point(Vec2::from_ints(0, 20000), Fixed::from_int(40), at),
        raw_point(500_000, 19_500_000)
    );
    assert_eq!(
        outline_point(Vec2::from_ints(300, -200), Fixed::from_int(80), Vec2::zero()),
        raw_point(600_000, -400_000)
    );
}

#[test]
fn an_empty_field_shows_only_the_ship() {
    let picture = game(Vec::new(), Vec::new(), ship()).render();
    assert_eq!(picture, player_glyph());
}

#[test]
fn the_ship_is_drawn_where_it_is() {
    let player = Player { pos: Vec2::from_ints(750, 250), ..ship() };
    let picture = game(Vec::new(), Vec::new(), player).render();
    let offset = raw_point(500_000, -500_000);
    let expected: Vec<Vec2> = player_glyph().iter().map(|p| p.plus(offset)).collect();
    assert_eq!(picture, expected);
}

#[test]
fn the_ship_turns_with_its_heading() {
    let player = Player { dir: Fixed::from_raw(HALF_PI), ..ship() };
    let picture = game(Vec::new(), Vec::new(), player).render();
    assert_eq!(picture.len(), 14);
    // the nose (0, -0.02) turned by a quarter turn points to (0.02, 0)
    assert!((picture[0].x.raw - 20_000).abs() <= 2);
    assert!(picture[0].y.raw.abs() <= 2);
}

#[test]
fn asteroids_come_first_then_bullets_then_the_ship() {
    let bullet = Bullet { pos: Vec2::from_ints(0, 1000), vel: Vec2::zero(), dir: Fixed::zero() };
    let picture = game(vec![rock(750, 250, 40, 0), rock(500, 500, 80, 1)], vec![bullet], ship()).render();
    assert_eq!(picture.len(), 4 + 2 + 4 + 14);
    assert_eq!(
        picture[..6],
        vec![
            raw_point(10_500_000, -500_000),
            raw_point(500_000, 19_500_000),
            raw_point(500_000, 19_500_000),
            raw_point(-9_500_000, -500_000),
            raw_point(-20_000_000, 0),
            raw_point(20_000_000, 0),
        ][..]
    );
    let corner = Vec2::from_ints(-1, 1);
    let expected: Vec<Vec2> = bullet_glyph().iter().map(|p| p.plus(corner)).collect();
    assert_eq!(picture[6..10], expected[..]);
    assert_eq!(picture[10..], player_glyph()[..]);
}

#[test]
fn the_picture_always_holds_an_even_number_of_points() {
    for asteroids in 0..6 {
        for bullets in 0..4 {
            let field = (0..asteroids).map(|i| rock(100 * i as i32, 50, 40, i % 3)).collect();
            let shots = (0..bullets)
                .map(|i| Bullet {
                    pos: Vec2::from_ints(10 * i, 20),
                    vel: Vec2::zero(),
                    dir: Fixed::from_int(i),
                })
                .collect();
            let picture = game(field, shots, ship()).render();
            assert_eq!(picture.len() % 2, 0);
        }
    }
}

#[test]
fn a_running_game_can_be_drawn_after_every_frame() {
    let mut game = Game::new(world(), library(), StdRng::seed_from_u64(21), 0);
    for step in 1..100 {
        let buttons = asteroids::entity::Buttons {
            forward: true,
            backward: false,
            left: step % 2 == 0,
            right: false,
            fire: true,
        };
        game.tick(buttons, Fixed::from_raw(33_000), 33 * step);
        assert_eq!(game.render().len() % 2, 0);
        if game.is_game_over() {
            game.reset(33 * step);
        }
    }
}
