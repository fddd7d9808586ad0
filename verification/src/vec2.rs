//! Two-dimensional vectors over [`Fixed`].

use crate::fixed::{clip, floor_sqrt, isqrt, Fixed};
use crate::trig::{arc_cosine, sine_cosine};
use vstd::prelude::*;

verus! {

/// A point or a displacement in the plane.
#[derive(Clone, Copy, Debug, PartialEq, Eq, Structural)]
pub struct Vec2 {
    pub x: Fixed,
    pub y: Fixed,
}

/// Square of a raw coordinate, as a wide unsigned number.
fn wide_square(v: i64) -> (r: u128)
    ensures
        r as int == v as int * v as int,
        r <= 0x4000_0000_0000_0000_0000_0000_0000_0000,
{
    let m: u128 = if v < 0 {
        (-(v as i128)) as u128
    } else {
        v as u128
    };
    assert(m * m <= 0x4000_0000_0000_0000_0000_0000_0000_0000 && m * m == v as int * v as int)
        by (nonlinear_arith)
        requires
            0 <= m <= 0x8000_0000_0000_0000,
            m == v as int || m == -(v as int),
    ;
    m * m
}

impl Vec2 {
    /// The vector with the given coordinates.
    pub open spec fn spec_new(x: Fixed, y: Fixed) -> Vec2 {
        Vec2 { x, y }
    }

    /// The vector with the given coordinates.
    #[verifier::when_used_as_spec(spec_new)]
    pub fn new(x: Fixed, y: Fixed) -> (r: Vec2)
        ensures
            r == Vec2::spec_new(x, y),
    {
        Vec2 { x, y }
    }

    /// The vector with the given whole coordinates.
    pub open spec fn spec_from_ints(x: i32, y: i32) -> Vec2 {
        Vec2 { x: Fixed::from_int(x), y: Fixed::from_int(y) }
    }

    /// The vector with the given whole coordinates.
    #[verifier::when_used_as_spec(spec_from_ints)]
    pub fn from_ints(x: i32, y: i32) -> (r: Vec2)
        ensures
            r == Vec2::spec_from_ints(x, y),
    {
        Vec2 { x: Fixed::from_int(x), y: Fixed::from_int(y) }
    }

    /// The zero vector.
    pub open spec fn spec_zero() -> Vec2 {
        Vec2 { x: Fixed::zero(), y: Fixed::zero() }
    }

    /// The zero vector.
    #[verifier::when_used_as_spec(spec_zero)]
    pub fn zero() -> (r: Vec2)
        ensures
            r == Vec2::spec_zero(),
    {
        Vec2 { x: Fixed::zero(), y: Fixed::zero() }
    }

    /// Coordinate-wise sum.
    pub open spec fn spec_plus(self, other: Vec2) -> Vec2 {
        Vec2 { x: self.x.plus(other.x), y: self.y.plus(other.y) }
    }

    /// Coordinate-wise sum.
    #[verifier::when_used_as_spec(spec_plus)]
    pub fn plus(self, other: Vec2) -> (r: Vec2)
        ensures
            r == self.spec_plus(other),
    {
        Vec2 { x: self.x.plus(other.x), y: self.y.plus(other.y) }
    }

    /// Coordinate-wise difference.
    pub open spec fn spec_minus(self, other: Vec2) -> Vec2 {
        Vec2 { x: self.x.minus(other.x), y: self.y.minus(other.y) }
    }

    /// Coordinate-wise difference.
    #[verifier::when_used_as_spec(spec_minus)]
    pub fn minus(self, other: Vec2) -> (r: Vec2)
        ensures
            r == self.spec_minus(other),
    {
        Vec2 { x: self.x.minus(other.x), y: self.y.minus(other.y) }
    }

    /// The opposite vector.
    pub open spec fn spec_negated(self) -> Vec2 {
        Vec2 { x: self.x.negated(), y: self.y.negated() }
    }

    /// The opposite vector.
    #[verifier::when_used_as_spec(spec_negated)]
    pub fn negated(self) -> (r: Vec2)
        ensures
            r == self.spec_negated(),
    {
        Vec2 { x: self.x.negated(), y: self.y.negated() }
    }

    /// Both coordinates multiplied by `factor`.
    pub open spec fn spec_scaled(self, factor: Fixed) -> Vec2 {
        Vec2 { x: self.x.times(factor), y: self.y.times(factor) }
    }

    /// Both coordinates multiplied by `factor`.
    #[verifier::when_used_as_spec(spec_scaled)]
    pub fn scaled(self, factor: Fixed) -> (r: Vec2)
        ensures
            r == self.spec_scaled(factor),
    {
        Vec2 { x: self.x.times(factor), y: self.y.times(factor) }
    }

    /// Both coordinates divided by `divisor`.
    pub open spec fn spec_shrunk(self, divisor: Fixed) -> Vec2 {
        Vec2 { x: self.x.over(divisor), y: self.y.over(divisor) }
    }

    /// Both coordinates divided by `divisor`.
    #[verifier::when_used_as_spec(spec_shrunk)]
    pub fn shrunk(self, divisor: Fixed) -> (r: Vec2)
        ensures
            r == self.spec_shrunk(divisor),
    {
        Vec2 { x: self.x.over(divisor), y: self.y.over(divisor) }
    }

    /// Each coordinate divided by the matching coordinate of `other`.
    pub open spec fn spec_divided(self, other: Vec2) -> Vec2 {
        Vec2 { x: self.x.over(other.x), y: self.y.over(other.y) }
    }

    /// Each coordinate divided by the matching coordinate of `other`.
    #[verifier::when_used_as_spec(spec_divided)]
    pub fn divided(self, other: Vec2) -> (r: Vec2)
        ensures
            r == self.spec_divided(other),
    {
        Vec2 { x: self.x.over(other.x), y: self.y.over(other.y) }
    }

    /// The scalar product.
    pub open spec fn spec_dot(self, other: Vec2) -> Fixed {
        self.x.times(other.x).plus(self.y.times(other.y))
    }

    /// The scalar product.
    #[verifier::when_used_as_spec(spec_dot)]
    pub fn dot(self, other: Vec2) -> (r: Fixed)
        ensures
            r == self.spec_dot(other),
    {
        self.x.times(other.x).plus(self.y.times(other.y))
    }

    /// The exact sum of the squared raw coordinates.
    pub open spec fn norm_squared(self) -> int {
        self.x.raw * self.x.raw + self.y.raw * self.y.raw
    }

    /// The Euclidean length: the integer square root of the exact sum of
    /// squares, clipped.
    pub open spec fn spec_magnitude(self) -> Fixed {
        Fixed { raw: clip(floor_sqrt(self.norm_squared())) as i64 }
    }

    /// The Euclidean length: the integer square root of the exact sum of
    /// squares, clipped.
    #[verifier::when_used_as_spec(spec_magnitude)]
    pub fn magnitude(self) -> (r: Fixed)
        ensures
            r == self.spec_magnitude(),
            r.raw >= 0,
    {
        let total: u128 = wide_square(self.x.raw) + wide_square(self.y.raw);
        let root: u128 = isqrt(total);
        if root > i64::MAX as u128 {
            Fixed { raw: i64::MAX }
        } else {
            Fixed { raw: root as i64 }
        }
    }

    /// The distance from `self` to `other`: the length of their clipped
    /// difference.
    pub open spec fn spec_distance(self, other: Vec2) -> Fixed {
        self.minus(other).magnitude()
    }

    /// The distance from `self` to `other`: the length of their clipped
    /// difference.
    #[verifier::when_used_as_spec(spec_distance)]
    pub fn distance(self, other: Vec2) -> (r: Fixed)
        ensures
            r == self.spec_distance(other),
            r.raw >= 0,
    {
        self.minus(other).magnitude()
    }

    /// Whether the squared distance from `self` to `other` is at most the
    /// square of `reach`, compared exactly.
    pub open spec fn spec_within(self, other: Vec2, reach: Fixed) -> bool {
        self.minus(other).norm_squared() <= reach.raw * reach.raw
    }

    /// Whether the squared distance from `self` to `other` is at most the
    /// square of `reach`, compared exactly.
    #[verifier::when_used_as_spec(spec_within)]
    pub fn within(self, other: Vec2, reach: Fixed) -> (r: bool)
        ensures
            r == self.spec_within(other, reach),
    {
        let d = self.minus(other);
        let total: u128 = wide_square(d.x.raw) + wide_square(d.y.raw);
        total <= wide_square(reach.raw)
    }

    /// The vector divided by its length; the zero vector stays zero.
    pub open spec fn spec_normalized(self) -> Vec2 {
        self.shrunk(self.magnitude())
    }

    /// The vector divided by its length; the zero vector stays zero.
    #[verifier::when_used_as_spec(spec_normalized)]
    pub fn normalized(self) -> (r: Vec2)
        ensures
            r == self.spec_normalized(),
    {
        self.shrunk(self.magnitude())
    }

    /// The vector turned counter-clockwise by `angle` radians:
    /// `(c x - s y, s x + c y)` with `(s, c)` the sine and cosine of `angle`.
    pub open spec fn spec_rotated(self, angle: Fixed) -> Vec2 {
        let (s, c) = sine_cosine(angle);
        Vec2 {
            x: c.times(self.x).minus(s.times(self.y)),
            y: s.times(self.x).plus(c.times(self.y)),
        }
    }

    /// The vector turned counter-clockwise by `angle` radians.
    #[verifier::when_used_as_spec(spec_rotated)]
    pub fn rotated(self, angle: Fixed) -> (r: Vec2)
        ensures
            r == self.spec_rotated(angle),
    {
        let (s, c) = sine_cosine(angle);
        Vec2 {
            x: c.times(self.x).minus(s.times(self.y)),
            y: s.times(self.x).plus(c.times(self.y)),
        }
    }

    /// The smallest angle between the directions of `self` and `other`, in
    /// `[0, PI]`: the arc cosine of the scalar product of the two
    /// normalized vectors.
    pub open spec fn spec_angle_between(self, other: Vec2) -> Fixed {
        arc_cosine(self.normalized().dot(other.normalized()))
    }

    /// The smallest angle between the directions of `self` and `other`.
    #[verifier::when_used_as_spec(spec_angle_between)]
    pub fn angle_between(self, other: Vec2) -> (r: Fixed)
        ensures
            r == self.spec_angle_between(other),
    {
        arc_cosine(self.normalized().dot(other.normalized()))
    }
}

} // verus!
