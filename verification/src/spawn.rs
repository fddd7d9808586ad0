//! Where new asteroids come from.
//!
//! A destroyed asteroid leaves a litter behind: nothing when the field is
//! full, two to four fragments when it was large, one newly placed asteroid
//! otherwise. What is random about a litter is collected in draws, so that
//! the asteroids of a litter are a function of the parent and the draws.

use crate::chance::draw_between;
use crate::entity::Asteroid;
use crate::fixed::Fixed;
use crate::rules::{
    ASTEROID_MAX_RADIUS, ASTEROID_MIN_RADIUS, FRAGMENT_MAX_BOOST, FRAGMENT_MIN_BOOST,
    MAX_ASTEROIDS, MAX_FRAGMENTS, MIN_FRAGMENTS, NEW_ASTEROID_MIN_RADIUS, PLACEMENT_ATTEMPTS,
    PLAYER_RADIUS, SPAWN_EXTENT, SPAWN_MARGIN, SPAWN_MAX_SPEED, SPAWN_MIN_SPEED,
};
use crate::vec2::Vec2;
use rand::rngs::StdRng;
use vstd::prelude::*;

verus! {

/// What is random about one fragment.
#[derive(Clone, Copy, Debug, PartialEq, Eq, Structural)]
pub struct FragmentDraw {
    /// Offset of the fragment from its parent's position.
    pub offset: Vec2,
    /// Velocity of the fragment on top of its parent's.
    pub boost: Vec2,
    /// Outline of the fragment.
    pub model_index: usize,
}

/// What is random about a newly placed asteroid.
#[derive(Clone, Copy, Debug, PartialEq, Eq, Structural)]
pub struct PlacementDraw {
    pub pos: Vec2,
    pub vel: Vec2,
    pub radius: Fixed,
    pub model_index: usize,
}

/// What a destroyed asteroid leaves behind.
pub enum Litter {
    /// The field is full: nothing.
    Nothing,
    /// The asteroid was large: one fragment per draw.
    Fragments(Seq<FragmentDraw>),
    /// The asteroid was small: one newly placed asteroid.
    Replacement(PlacementDraw),
}

/// Whether `value` lies in the half-open interval from `low` to `high`,
/// given in whole units.
pub open spec fn in_range(value: Fixed, low: int, high: int) -> bool {
    low * 1_000_000 <= value.raw < high * 1_000_000
}

/// Whether both coordinates of `v` lie in the half-open interval from
/// `low` to `high`, given in whole units.
pub open spec fn in_square(v: Vec2, low: int, high: int) -> bool {
    in_range(v.x, low, high) && in_range(v.y, low, high)
}

/// The radius of each of `count` fragments of an asteroid of radius
/// `radius`: the radius divided by the count.
pub open spec fn spec_fragment_radius(radius: Fixed, count: usize) -> Fixed {
    radius.over(Fixed::from_count(count))
}

/// The radius of each of `count` fragments of an asteroid of radius
/// `radius`: the radius divided by the count.
#[verifier::when_used_as_spec(spec_fragment_radius)]
pub fn fragment_radius(radius: Fixed, count: usize) -> (r: Fixed)
    ensures
        r == spec_fragment_radius(radius, count),
{
    radius.over(Fixed::from_count(count))
}

/// The distance that a newly placed asteroid of radius `radius` must
/// exceed from the ship: both radii and the margin.
pub open spec fn spec_clearance(radius: Fixed) -> Fixed {
    radius.plus(Fixed::from_int(PLAYER_RADIUS)).plus(Fixed::from_int(SPAWN_MARGIN))
}

/// The distance that a newly placed asteroid of radius `radius` must
/// exceed from the ship: both radii and the margin.
#[verifier::when_used_as_spec(spec_clearance)]
pub fn clearance(radius: Fixed) -> (r: Fixed)
    ensures
        r == spec_clearance(radius),
{
    radius.plus(Fixed::from_int(PLAYER_RADIUS)).plus(Fixed::from_int(SPAWN_MARGIN))
}

/// Whether `draw` may be drawn for a fragment of radius `radius` when the
/// shape library holds `shapes` outlines: each offset coordinate lies in
/// `[0, radius)`, each boost coordinate in the boost range, and the outline
/// exists.
pub open spec fn fragment_draw_ok(draw: FragmentDraw, radius: Fixed, shapes: usize) -> bool {
    &&& 0 <= draw.offset.x.raw < radius.raw
    &&& 0 <= draw.offset.y.raw < radius.raw
    &&& in_square(draw.boost, FRAGMENT_MIN_BOOST as int, FRAGMENT_MAX_BOOST as int)
    &&& draw.model_index < shapes
}

/// Whether `draw` may be drawn for a newly placed asteroid when the ship is
/// at `ship` and the shape library holds `shapes` outlines: position, speed
/// and radius lie in their ranges, the outline exists, and the distance to
/// the ship exceeds the clearance.
pub open spec fn placement_draw_ok(draw: PlacementDraw, ship: Vec2, shapes: usize) -> bool {
    &&& in_square(draw.pos, 0, SPAWN_EXTENT as int)
    &&& in_square(draw.vel, SPAWN_MIN_SPEED as int, SPAWN_MAX_SPEED as int)
    &&& in_range(draw.radius, NEW_ASTEROID_MIN_RADIUS as int, ASTEROID_MAX_RADIUS as int)
    &&& draw.model_index < shapes
    &&& !draw.pos.within(ship, clearance(draw.radius))
}

impl Asteroid {
    /// One of `count` fragments of this asteroid: the parent's position and
    /// velocity plus what was drawn, and the parent's radius divided by
    /// `count`.
    pub open spec fn spec_fragment(self, count: usize, draw: FragmentDraw) -> Asteroid {
        Asteroid {
            pos: self.pos.plus(draw.offset),
            vel: self.vel.plus(draw.boost),
            radius: fragment_radius(self.radius, count),
            model_index: draw.model_index,
        }
    }

    /// One of `count` fragments of this asteroid.
    #[verifier::when_used_as_spec(spec_fragment)]
    pub fn fragment(self, count: usize, draw: FragmentDraw) -> (r: Asteroid)
        ensures
            r == self.spec_fragment(count, draw),
    {
        Asteroid {
            pos: self.pos.plus(draw.offset),
            vel: self.vel.plus(draw.boost),
            radius: fragment_radius(self.radius, count),
            model_index: draw.model_index,
        }
    }

    /// The fragments of this asteroid, one per draw.
    pub open spec fn spec_split(self, draws: Seq<FragmentDraw>) -> Seq<Asteroid> {
        Seq::new(draws.len(), |i: int| self.fragment(draws.len() as usize, draws[i]))
    }

    /// The fragments of this asteroid, one per draw: as many as there are
    /// draws, each with the parent's radius divided by their number.
    pub fn split(self, draws: &Vec<FragmentDraw>) -> (r: Vec<Asteroid>)
        ensures
            r@ == self.spec_split(draws@),
            r.len() == draws.len(),
            forall|i: int|
                0 <= i < r.len() ==> (#[trigger] r[i]).radius == fragment_radius(
                    self.radius,
                    draws.len(),
                ),
    {
        let count = draws.len();
        let mut out: Vec<Asteroid> = Vec::new();
        let mut i: usize = 0;
        while i < count
            invariant
                count == draws.len(),
                i <= count,
                out.len() == i,
                forall|k: int| 0 <= k < i ==> out[k] == self.fragment(count, draws[k]),
            decreases count - i,
        {
            out.push(self.fragment(count, draws[i]));
            i += 1;
        }
        assert(out@ =~= self.spec_split(draws@));
        out
    }

    /// The asteroid that a placement draw describes.
    pub open spec fn spec_placed(draw: PlacementDraw) -> Asteroid {
        Asteroid {
            pos: draw.pos,
            vel: draw.vel,
            radius: draw.radius,
            model_index: draw.model_index,
        }
    }

    /// The asteroid that a placement draw describes.
    #[verifier::when_used_as_spec(spec_placed)]
    pub fn placed(draw: PlacementDraw) -> (r: Asteroid)
        ensures
            r == Asteroid::spec_placed(draw),
    {
        Asteroid {
            pos: draw.pos,
            vel: draw.vel,
            radius: draw.radius,
            model_index: draw.model_index,
        }
    }
}

/// The asteroids of a litter of `parent`.
pub open spec fn offspring(parent: Asteroid, litter: Litter) -> Seq<Asteroid> {
    match litter {
        Litter::Nothing => Seq::empty(),
        Litter::Fragments(draws) => parent.spec_split(draws),
        Litter::Replacement(draw) => seq![Asteroid::placed(draw)],
    }
}

/// Whether `parent` breaks into fragments when destroyed: its radius
/// exceeds the fragmentation threshold.
pub open spec fn spec_breaks_up(parent: Asteroid) -> bool {
    parent.radius.raw > Fixed::from_int(ASTEROID_MIN_RADIUS).raw
}

/// Whether `parent` breaks into fragments when destroyed.
#[verifier::when_used_as_spec(spec_breaks_up)]
pub fn breaks_up(parent: Asteroid) -> (r: bool)
    ensures
        r == spec_breaks_up(parent),
{
    parent.radius.raw > Fixed::from_int(ASTEROID_MIN_RADIUS).raw
}

/// Whether `litter` is a litter that `parent` may leave when `remaining`
/// asteroids are left after its removal, the ship is at `ship` and the
/// shape library holds `shapes` outlines.
pub open spec fn litter_ok(
    parent: Asteroid,
    remaining: int,
    ship: Vec2,
    shapes: usize,
    litter: Litter,
) -> bool {
    if remaining >= MAX_ASTEROIDS {
        litter is Nothing
    } else if breaks_up(parent) {
        &&& litter matches Litter::Fragments(draws)
        &&& MIN_FRAGMENTS <= draws.len() <= MAX_FRAGMENTS
        &&& forall|i: int|
            0 <= i < draws.len() ==> fragment_draw_ok(
                #[trigger] draws[i],
                fragment_radius(parent.radius, draws.len() as usize),
                shapes,
            )
    } else {
        &&& litter matches Litter::Replacement(draw)
        &&& placement_draw_ok(draw, ship, shapes)
    }
}

/// A litter holds nothing, two to four fragments that all have the parent's
/// radius divided by their number, or one asteroid beyond the clearance
/// from the ship.
pub proof fn litter_shape(
    parent: Asteroid,
    remaining: int,
    ship: Vec2,
    shapes: usize,
    litter: Litter,
)
    requires
        litter_ok(parent, remaining, ship, shapes, litter),
    ensures
        remaining >= MAX_ASTEROIDS ==> offspring(parent, litter).len() == 0,
        remaining < MAX_ASTEROIDS && breaks_up(parent) ==> {
            let children = offspring(parent, litter);
            &&& 2 <= children.len() <= 4
            &&& forall|i: int|
                0 <= i < children.len() ==> (#[trigger] children[i]).radius == parent.radius.over(
                    Fixed::from_count(children.len() as usize),
                )
        },
        remaining < MAX_ASTEROIDS && !breaks_up(parent) ==> {
            let children = offspring(parent, litter);
            &&& children.len() == 1
            &&& !children[0].pos.within(ship, clearance(children[0].radius))
        },
        forall|i: int|
            0 <= i < offspring(parent, litter).len() ==> (#[trigger] offspring(
                parent,
                litter,
            )[i]).model_index < shapes,
{
}

/// A number from the half-open interval between two fixed-point numbers.
fn draw_fixed(rng: &mut StdRng, low: Fixed, high: Fixed) -> (r: Fixed)
    requires
        low.raw < high.raw,
    ensures
        low.raw <= r.raw < high.raw,
{
    Fixed::from_raw(draw_between(rng, low.raw, high.raw))
}

/// A vector with both coordinates from the half-open interval between two
/// whole numbers.
fn draw_in_square(rng: &mut StdRng, low: i32, high: i32) -> (r: Vec2)
    requires
        low < high,
    ensures
        in_square(r, low as int, high as int),
{
    let x = draw_fixed(rng, Fixed::from_int(low), Fixed::from_int(high));
    let y = draw_fixed(rng, Fixed::from_int(low), Fixed::from_int(high));
    Vec2 { x, y }
}

/// An index below `bound`.
fn draw_index(rng: &mut StdRng, bound: usize) -> (r: usize)
    requires
        bound > 0,
    ensures
        r < bound,
{
    let high: i64 = if bound as u64 > 0x7fff_ffff_ffff_ffff {
        i64::MAX
    } else {
        bound as i64
    };
    index_of(draw_between(rng, 0, high), bound)
}

/// The index that a number drawn below `bound` stands for: the number
/// itself.
fn index_of(drawn: i64, bound: usize) -> (r: usize)
    requires
        0 <= drawn < bound,
    ensures
        r == drawn,
{
    drawn as usize
}

/// Draws what is random about one fragment of radius `radius`.
fn draw_fragment(rng: &mut StdRng, radius: Fixed, shapes: usize) -> (r: FragmentDraw)
    requires
        radius.raw > 0,
        shapes > 0,
    ensures
        fragment_draw_ok(r, radius, shapes),
{
    let ox = draw_fixed(rng, Fixed::zero(), radius);
    let oy = draw_fixed(rng, Fixed::zero(), radius);
    let boost = draw_in_square(rng, FRAGMENT_MIN_BOOST, FRAGMENT_MAX_BOOST);
    let model_index = draw_index(rng, shapes);
    FragmentDraw { offset: Vec2 { x: ox, y: oy }, boost, model_index }
}

/// The coordinate of the spawn square's edge that lies farther from `ship`.
fn far_edge(ship: Fixed) -> (r: Fixed)
    ensures
        in_range(r, 0, SPAWN_EXTENT as int),
        r.minus(ship).raw >= 499_999_999 || r.minus(ship).raw <= -499_999_999,
{
    if ship.raw < 500_000_000 {
        Fixed { raw: 999_999_999 }
    } else {
        Fixed::zero()
    }
}

/// Draws what is random about a newly placed asteroid. The position is
/// drawn again while it lies within the clearance from the ship; after
/// `PLACEMENT_ATTEMPTS` such draws the asteroid goes to the corner of the
/// spawn square that lies farthest from the ship.
pub(crate) fn draw_placement(rng: &mut StdRng, ship: Vec2, shapes: usize) -> (r: PlacementDraw)
    requires
        shapes > 0,
    ensures
        placement_draw_ok(r, ship, shapes),
{
    let mut pos = draw_in_square(rng, 0, SPAWN_EXTENT);
    let vel = draw_in_square(rng, SPAWN_MIN_SPEED, SPAWN_MAX_SPEED);
    let radius = draw_fixed(
        rng,
        Fixed::from_int(NEW_ASTEROID_MIN_RADIUS),
        Fixed::from_int(ASTEROID_MAX_RADIUS),
    );
    let model_index = draw_index(rng, shapes);
    let reach = clearance(radius);
    let mut attempts: u32 = 0;
    while pos.within(ship, reach) && attempts < PLACEMENT_ATTEMPTS
        invariant
            in_square(pos, 0, SPAWN_EXTENT as int),
            attempts <= PLACEMENT_ATTEMPTS,
        decreases PLACEMENT_ATTEMPTS - attempts,
    {
        pos = draw_in_square(rng, 0, SPAWN_EXTENT);
        attempts += 1;
    }
    if pos.within(ship, reach) {
        pos = Vec2 { x: far_edge(ship.x), y: far_edge(ship.y) };
        proof {
            let d = pos.minus(ship);
            assert(0 <= reach.raw < 140_000_000);
            assert(d.x.raw * d.x.raw >= 499_999_999 * 499_999_999) by (nonlinear_arith)
                requires
                    d.x.raw >= 499_999_999 || d.x.raw <= -499_999_999,
            ;
            assert(d.y.raw * d.y.raw >= 0) by (nonlinear_arith);
            assert(reach.raw * reach.raw < 140_000_000 * 140_000_000) by (nonlinear_arith)
                requires
                    0 <= reach.raw < 140_000_000,
            ;
        }
    }
    PlacementDraw { pos, vel, radius, model_index }
}

/// A fragment of an asteroid that breaks up has a positive radius.
proof fn fragment_radius_positive(radius: Fixed, count: usize)
    requires
        radius.raw > 30_000_000,
        1 <= count <= 4,
    ensures
        fragment_radius(radius, count).raw > 0,
{
    let n = radius.raw * 1_000_000;
    let d = count * 1_000_000;
    assert(n >= d);
    assert(n / d >= 1) by (nonlinear_arith)
        requires
            n >= d,
            d > 0,
    ;
    assert(n / d <= n) by (nonlinear_arith)
        requires
            n >= 0,
            d >= 1,
    ;
}

/// Makes the litter of a destroyed asteroid: decides by the number of
/// asteroids that remain and by the parent's radius what it leaves, draws
/// what is random about it, and returns the new asteroids with the litter
/// they were made from.
pub(crate) fn produce(
    rng: &mut StdRng,
    parent: Asteroid,
    remaining: usize,
    ship: Vec2,
    shapes: usize,
) -> (r: (Vec<Asteroid>, Ghost<Litter>))
    requires
        shapes > 0,
    ensures
        litter_ok(parent, remaining as int, ship, shapes, r.1@),
        r.0@ == offspring(parent, r.1@),
        r.0.len() <= MAX_FRAGMENTS,
{
    if remaining >= MAX_ASTEROIDS {
        (Vec::new(), Ghost(Litter::Nothing))
    } else if breaks_up(parent) {
        let count = draw_index(rng, MAX_FRAGMENTS - MIN_FRAGMENTS + 1) + MIN_FRAGMENTS;
        let radius = fragment_radius(parent.radius, count);
        proof {
            fragment_radius_positive(parent.radius, count);
        }
        let mut draws: Vec<FragmentDraw> = Vec::new();
        let mut i: usize = 0;
        while i < count
            invariant
                i <= count,
                draws.len() == i,
                radius.raw > 0,
                shapes > 0,
                forall|k: int| 0 <= k < i ==> fragment_draw_ok(#[trigger] draws[k], radius, shapes),
            decreases count - i,
        {
            let draw = draw_fragment(rng, radius, shapes);
            draws.push(draw);
            i += 1;
        }
        let children = parent.split(&draws);
        (children, Ghost(Litter::Fragments(draws@)))
    } else {
        let draw = draw_placement(rng, ship, shapes);
        let mut children: Vec<Asteroid> = Vec::new();
        children.push(Asteroid::placed(draw));
        assert(children@ =~= seq![Asteroid::placed(draw)]);
        (children, Ghost(Litter::Replacement(draw)))
    }
}

} // verus!
