//! The state of a game as a mathematical value, and the outline library.

use crate::entity::{Asteroid, Bullet, Player};
use crate::vec2::Vec2;
use vstd::prelude::*;

verus! {

/// Everything that a game consists of, apart from its random source.
pub struct World {
    pub asteroids: Seq<Asteroid>,
    pub bullets: Seq<Bullet>,
    pub player: Player,
    pub game_over: bool,
    pub score: u64,
    /// Extent of the world along both axes.
    pub size: Vec2,
    /// The outlines that asteroids refer to by index.
    pub shapes: Seq<Seq<Vec2>>,
}

/// Whether `shapes` can serve as an outline library: there is at least one
/// outline, and every outline is in segment-pair form.
pub open spec fn shapes_ok(shapes: Seq<Seq<Vec2>>) -> bool {
    &&& shapes.len() > 0
    &&& forall|i: int| 0 <= i < shapes.len() ==> (#[trigger] shapes[i]).len() % 2 == 0
}

/// Whether every asteroid refers to an outline that exists.
pub open spec fn shapes_cover(asteroids: Seq<Asteroid>, shapes: int) -> bool {
    forall|i: int| 0 <= i < asteroids.len() ==> (#[trigger] asteroids[i]).model_index < shapes
}

impl World {
    /// The invariant of a game: a usable outline library that covers all
    /// asteroids.
    pub open spec fn wf(self) -> bool {
        &&& shapes_ok(self.shapes)
        &&& shapes_cover(self.asteroids, self.shapes.len() as int)
    }
}

/// The outlines of a list of point lists.
pub open spec fn outlines_of(lists: Seq<Vec<Vec2>>) -> Seq<Seq<Vec2>> {
    Seq::new(lists.len(), |i: int| lists[i]@)
}

/// A non-empty collection of outlines in segment-pair form, shared by all
/// asteroids.
pub struct ShapeLibrary {
    outlines: Vec<Vec<Vec2>>,
}

impl View for ShapeLibrary {
    type V = Seq<Seq<Vec2>>;

    closed spec fn view(&self) -> Seq<Seq<Vec2>> {
        outlines_of(self.outlines@)
    }
}

impl ShapeLibrary {
    /// Every library is usable.
    #[verifier::type_invariant]
    spec fn usable(self) -> bool {
        shapes_ok(outlines_of(self.outlines@))
    }

    /// Makes a library of the given outlines. There is none to make when
    /// no outline is given or when one of them has an odd number of points.
    pub fn new(outlines: Vec<Vec<Vec2>>) -> (r: Option<ShapeLibrary>)
        ensures
            r is Some <==> shapes_ok(outlines_of(outlines@)),
            r matches Some(library) ==> library@ == outlines_of(outlines@),
    {
        if outlines.len() == 0 {
            return None;
        }
        let mut i: usize = 0;
        while i < outlines.len()
            invariant
                i <= outlines.len(),
                forall|k: int| 0 <= k < i ==> (#[trigger] outlines_of(outlines@)[k]).len() % 2 == 0,
            decreases outlines.len() - i,
        {
            if outlines[i].len() % 2 != 0 {
                assert(outlines_of(outlines@)[i as int].len() % 2 != 0);
                return None;
            }
            i += 1;
        }
        Some(ShapeLibrary { outlines })
    }

    /// The number of outlines; there is at least one, and all are in
    /// segment-pair form.
    pub fn len(&self) -> (r: usize)
        ensures
            r == self@.len(),
            shapes_ok(self@),
    {
        proof {
            use_type_invariant(self);
        }
        self.outlines.len()
    }

    /// The outline with the given index.
    pub fn outline(&self, index: usize) -> (r: &Vec<Vec2>)
        requires
            index < self@.len(),
        ensures
            r@ == self@[index as int],
    {
        &self.outlines[index]
    }
}

} // verus!
