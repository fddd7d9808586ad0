//! From the state of a game to the line segments that show it.
//!
//! The picture is a flat list of points in device coordinates, which run
//! from minus one to one across the world; each consecutive pair of points
//! is one line segment. It holds the outlines of all asteroids, then the
//! marks of all bullets, then the mark of the ship.

use crate::entity::{Asteroid, Bullet};
use crate::fixed::Fixed;
use crate::game::Game;
use crate::vec2::Vec2;
use crate::world::World;
use vstd::prelude::*;

verus! {

/// The point with the given raw coordinates.
pub open spec fn spec_raw_point(x: i64, y: i64) -> Vec2 {
    Vec2 { x: Fixed { raw: x }, y: Fixed { raw: y } }
}

/// The point with the given raw coordinates.
#[verifier::when_used_as_spec(spec_raw_point)]
pub fn raw_point(x: i64, y: i64) -> (r: Vec2)
    ensures
        r == spec_raw_point(x, y),
{
    Vec2 { x: Fixed { raw: x }, y: Fixed { raw: y } }
}

/// The mark of the ship: seven segments, in device units.
pub open spec fn spec_player_glyph() -> Seq<Vec2> {
    seq![
        raw_point(0, -20_000i64),
        raw_point(10_000, 10_000),
        raw_point(0, -20_000i64),
        raw_point(-10_000i64, 10_000),
        raw_point(-10_000i64, 10_000),
        raw_point(-20_000i64, 20_000),
        raw_point(10_000, 10_000),
        raw_point(20_000, 20_000),
        raw_point(10_000, 10_000),
        raw_point(-10_000i64, 10_000),
        raw_point(10_000, 10_000),
        raw_point(0, 20_000),
        raw_point(-10_000i64, 10_000),
        raw_point(0, 20_000),
    ]
}

/// The mark of the ship: seven segments, in device units.
pub fn player_glyph() -> (r: Vec<Vec2>)
    ensures
        r@ == spec_player_glyph(),
        r.len() == 14,
{
    let r = vec![
        raw_point(0, -20_000i64),
        raw_point(10_000, 10_000),
        raw_point(0, -20_000i64),
        raw_point(-10_000i64, 10_000),
        raw_point(-10_000i64, 10_000),
        raw_point(-20_000i64, 20_000),
        raw_point(10_000, 10_000),
        raw_point(20_000, 20_000),
        raw_point(10_000, 10_000),
        raw_point(-10_000i64, 10_000),
        raw_point(10_000, 10_000),
        raw_point(0, 20_000),
        raw_point(-10_000i64, 10_000),
        raw_point(0, 20_000),
    ];
    assert(r@ =~= spec_player_glyph());
    r
}

/// The mark of a bullet: two segments, in device units.
pub open spec fn spec_bullet_glyph() -> Seq<Vec2> {
    seq![
        raw_point(0, -5_000i64),
        raw_point(5_000, 5_000),
        raw_point(0, -5_000i64),
        raw_point(-5_000i64, 5_000),
    ]
}

/// The mark of a bullet: two segments, in device units.
pub fn bullet_glyph() -> (r: Vec<Vec2>)
    ensures
        r@ == spec_bullet_glyph(),
        r.len() == 4,
{
    let r = vec![
        raw_point(0, -5_000i64),
        raw_point(5_000, 5_000),
        raw_point(0, -5_000i64),
        raw_point(-5_000i64, 5_000),
    ];
    assert(r@ =~= spec_bullet_glyph());
    r
}

/// The device coordinates of the world position `pos`: the position
/// divided by half the world's extent, minus one.
pub open spec fn spec_projected(pos: Vec2, size: Vec2) -> Vec2 {
    pos.divided(size.shrunk(Fixed::from_int(2))).minus(Vec2::from_ints(1, 1))
}

/// The device coordinates of the world position `pos`.
#[verifier::when_used_as_spec(spec_projected)]
pub fn projected(pos: Vec2, size: Vec2) -> (r: Vec2)
    ensures
        r == spec_projected(pos, size),
{
    pos.divided(size.shrunk(Fixed::from_int(2))).minus(Vec2::from_ints(1, 1))
}

/// A point of an asteroid's outline in device coordinates: the outline
/// point times a quarter of the radius, divided by ten thousand, moved to
/// `at`.
pub open spec fn spec_outline_point(point: Vec2, radius: Fixed, at: Vec2) -> Vec2 {
    point.scaled(radius.over(Fixed::from_int(4))).shrunk(Fixed::from_int(10_000)).plus(at)
}

/// A point of an asteroid's outline in device coordinates.
#[verifier::when_used_as_spec(spec_outline_point)]
pub fn outline_point(point: Vec2, radius: Fixed, at: Vec2) -> (r: Vec2)
    ensures
        r == spec_outline_point(point, radius, at),
{
    point.scaled(radius.over(Fixed::from_int(4))).shrunk(Fixed::from_int(10_000)).plus(at)
}

/// The outline `shape` drawn for `asteroid` in a world of extent `size`.
pub open spec fn asteroid_lines(shape: Seq<Vec2>, asteroid: Asteroid, size: Vec2) -> Seq<Vec2> {
    Seq::new(
        shape.len(),
        |i: int| outline_point(shape[i], asteroid.radius, projected(asteroid.pos, size)),
    )
}

/// The mark `glyph` turned by `dir` and drawn at world position `pos`.
pub open spec fn glyph_lines(glyph: Seq<Vec2>, dir: Fixed, pos: Vec2, size: Vec2) -> Seq<Vec2> {
    Seq::new(glyph.len(), |i: int| glyph[i].rotated(dir).plus(projected(pos, size)))
}

/// The outlines of the first `count` asteroids, one after the other.
pub open spec fn field_lines(
    asteroids: Seq<Asteroid>,
    shapes: Seq<Seq<Vec2>>,
    size: Vec2,
    count: int,
) -> Seq<Vec2>
    decreases count,
{
    if count <= 0 {
        Seq::empty()
    } else {
        field_lines(asteroids, shapes, size, count - 1) + asteroid_lines(
            shapes[asteroids[count - 1].model_index as int],
            asteroids[count - 1],
            size,
        )
    }
}

/// The marks of the first `count` bullets, one after the other.
pub open spec fn volley_lines(bullets: Seq<Bullet>, size: Vec2, count: int) -> Seq<Vec2>
    decreases count,
{
    if count <= 0 {
        Seq::empty()
    } else {
        volley_lines(bullets, size, count - 1) + glyph_lines(
            spec_bullet_glyph(),
            bullets[count - 1].dir,
            bullets[count - 1].pos,
            size,
        )
    }
}

/// The picture of `world`: all asteroid outlines, then all bullet marks,
/// then the mark of the ship.
pub open spec fn rendered(world: World) -> Seq<Vec2> {
    field_lines(world.asteroids, world.shapes, world.size, world.asteroids.len() as int)
        + volley_lines(world.bullets, world.size, world.bullets.len() as int) + glyph_lines(
        spec_player_glyph(),
        world.player.dir,
        world.player.pos,
        world.size,
    )
}

/// The outlines of any number of asteroids hold an even number of points.
pub proof fn field_lines_even(world: World, count: int)
    requires
        world.wf(),
        0 <= count <= world.asteroids.len(),
    ensures
        field_lines(world.asteroids, world.shapes, world.size, count).len() % 2 == 0,
    decreases count,
{
    if count > 0 {
        field_lines_even(world, count - 1);
        let index = world.asteroids[count - 1].model_index as int;
        assert(world.shapes[index].len() % 2 == 0);
    }
}

/// The marks of `count` bullets hold four points each.
pub proof fn volley_lines_length(bullets: Seq<Bullet>, size: Vec2, count: int)
    requires
        0 <= count,
    ensures
        volley_lines(bullets, size, count).len() == 4 * count,
    decreases count,
{
    if count > 0 {
        volley_lines_length(bullets, size, count - 1);
    }
}

/// A picture always holds an even number of points, whatever the numbers of
/// asteroids and bullets.
pub proof fn rendered_even(world: World)
    requires
        world.wf(),
    ensures
        rendered(world).len() % 2 == 0,
{
    field_lines_even(world, world.asteroids.len() as int);
    volley_lines_length(world.bullets, world.size, world.bullets.len() as int);
}

/// Appends to `out` the mark `glyph` turned by `dir` and drawn at `pos`.
fn push_glyph(out: &mut Vec<Vec2>, glyph: &Vec<Vec2>, dir: Fixed, pos: Vec2, size: Vec2)
    ensures
        final(out)@ == old(out)@ + glyph_lines(glyph@, dir, pos, size),
{
    let at = projected(pos, size);
    let ghost start = out@;
    let mut i: usize = 0;
    while i < glyph.len()
        invariant
            i <= glyph.len(),
            at == projected(pos, size),
            out@.len() == start.len() + i,
            forall|k: int| 0 <= k < start.len() ==> out@[k] == start[k],
            forall|k: int|
                0 <= k < i ==> out@[start.len() + k] == glyph_lines(glyph@, dir, pos, size)[k],
        decreases glyph.len() - i,
    {
        out.push(glyph[i].rotated(dir).plus(at));
        i += 1;
    }
    assert(out@ =~= start + glyph_lines(glyph@, dir, pos, size));
}

/// Appends to `out` the outline `shape` drawn for `asteroid`.
fn push_outline(out: &mut Vec<Vec2>, shape: &Vec<Vec2>, asteroid: Asteroid, size: Vec2)
    ensures
        final(out)@ == old(out)@ + asteroid_lines(shape@, asteroid, size),
{
    let at = projected(asteroid.pos, size);
    let ghost start = out@;
    let mut i: usize = 0;
    while i < shape.len()
        invariant
            i <= shape.len(),
            at == projected(asteroid.pos, size),
            out@.len() == start.len() + i,
            forall|k: int| 0 <= k < start.len() ==> out@[k] == start[k],
            forall|k: int|
                0 <= k < i ==> out@[start.len() + k] == asteroid_lines(shape@, asteroid, size)[k],
        decreases shape.len() - i,
    {
        out.push(outline_point(shape[i], asteroid.radius, at));
        i += 1;
    }
    assert(out@ =~= start + asteroid_lines(shape@, asteroid, size));
}

impl Game {
    /// The picture of the game, in segment-pair form.
    pub fn render(&self) -> (r: Vec<Vec2>)
        ensures
            r@ == rendered(self@),
            r.len() % 2 == 0,
    {
        let size = self.size();
        let asteroids = self.asteroids();
        let bullets = self.bullets();
        let shapes = self.shapes();
        let mut out: Vec<Vec2> = Vec::new();
        let mut i: usize = 0;
        while i < asteroids.len()
            invariant
                i <= asteroids.len(),
                self@.wf(),
                asteroids@ == self@.asteroids,
                shapes@ == self@.shapes,
                size == self@.size,
                out@ == field_lines(self@.asteroids, self@.shapes, self@.size, i as int),
            decreases asteroids.len() - i,
        {
            let asteroid = asteroids[i];
            push_outline(&mut out, shapes.outline(asteroid.model_index), asteroid, size);
            i += 1;
        }
        let ghost field = out@;
        let mark = bullet_glyph();
        let mut j: usize = 0;
        while j < bullets.len()
            invariant
                j <= bullets.len(),
                bullets@ == self@.bullets,
                size == self@.size,
                mark@ == spec_bullet_glyph(),
                out@ == field + volley_lines(self@.bullets, self@.size, j as int),
            decreases bullets.len() - j,
        {
            let bullet = bullets[j];
            let ghost sofar = volley_lines(self@.bullets, self@.size, j as int);
            push_glyph(&mut out, &mark, bullet.dir, bullet.pos, size);
            j += 1;
            assert(out@ =~= field + volley_lines(self@.bullets, self@.size, j as int)) by {
                assert(volley_lines(self@.bullets, self@.size, j as int) == sofar + glyph_lines(
                    spec_bullet_glyph(),
                    bullet.dir,
                    bullet.pos,
                    size,
                ));
            }
        }
        let ship = self.player();
        let ship_mark = player_glyph();
        push_glyph(&mut out, &ship_mark, ship.dir, ship.pos, size);
        proof {
            rendered_even(self@);
        }
        out
    }
}

} // verus!
