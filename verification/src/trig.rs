//! Sine, cosine and arc cosine on fixed-point radians.
//!
//! The functions are defined by short polynomial formulas evaluated in
//! [`Fixed`] arithmetic, so their values are the same on every machine.
//! Sine and cosine use the Taylor polynomial on the first quadrant and
//! symmetry elsewhere; arc cosine uses a cubic times a square root.
//! All results are clamped to their mathematical range.

use crate::fixed::Fixed;
use vstd::prelude::*;

verus! {

/// Half a turn, in raw radians.
pub const PI: i64 = 3_141_593;

/// A quarter turn, in raw radians.
pub const HALF_PI: i64 = 1_570_796;

/// A full turn, in raw radians.
pub const TAU: i64 = 6_283_185;

/// `value` limited to the interval from minus one to one.
pub open spec fn spec_clamp_unit(value: Fixed) -> Fixed {
    if value.raw > 1_000_000 {
        Fixed { raw: 1_000_000 }
    } else if value.raw < -1_000_000 {
        Fixed { raw: -1_000_000i64 }
    } else {
        value
    }
}

/// `value` limited to the interval from minus one to one.
#[verifier::when_used_as_spec(spec_clamp_unit)]
pub fn clamp_unit(value: Fixed) -> (r: Fixed)
    ensures
        r == spec_clamp_unit(value),
        -1_000_000 <= r.raw <= 1_000_000,
{
    if value.raw > 1_000_000 {
        Fixed { raw: 1_000_000 }
    } else if value.raw < -1_000_000 {
        Fixed { raw: -1_000_000i64 }
    } else {
        value
    }
}

/// The polynomial `t - t^3/3! + t^5/5! - t^7/7! + t^9/9!`, nested.
pub open spec fn spec_sine_series(t: Fixed) -> Fixed {
    let one = Fixed::from_int(1);
    let sq = t.times(t);
    let a = one.minus(sq.over(Fixed::from_int(72)));
    let b = one.minus(sq.over(Fixed::from_int(42)).times(a));
    let c = one.minus(sq.over(Fixed::from_int(20)).times(b));
    let d = one.minus(sq.over(Fixed::from_int(6)).times(c));
    t.times(d)
}

/// The polynomial `t - t^3/3! + t^5/5! - t^7/7! + t^9/9!`, nested.
#[verifier::when_used_as_spec(spec_sine_series)]
pub fn sine_series(t: Fixed) -> (r: Fixed)
    ensures
        r == spec_sine_series(t),
{
    let one = Fixed::from_int(1);
    let sq = t.times(t);
    let a = one.minus(sq.over(Fixed::from_int(72)));
    let b = one.minus(sq.over(Fixed::from_int(42)).times(a));
    let c = one.minus(sq.over(Fixed::from_int(20)).times(b));
    let d = one.minus(sq.over(Fixed::from_int(6)).times(c));
    t.times(d)
}

/// The polynomial `1 - t^2/2! + t^4/4! - t^6/6! + t^8/8! - t^10/10!`, nested.
pub open spec fn spec_cosine_series(t: Fixed) -> Fixed {
    let one = Fixed::from_int(1);
    let sq = t.times(t);
    let a = one.minus(sq.over(Fixed::from_int(90)));
    let b = one.minus(sq.over(Fixed::from_int(56)).times(a));
    let c = one.minus(sq.over(Fixed::from_int(30)).times(b));
    let d = one.minus(sq.over(Fixed::from_int(12)).times(c));
    one.minus(sq.over(Fixed::from_int(2)).times(d))
}

/// The polynomial `1 - t^2/2! + t^4/4! - t^6/6! + t^8/8! - t^10/10!`, nested.
#[verifier::when_used_as_spec(spec_cosine_series)]
pub fn cosine_series(t: Fixed) -> (r: Fixed)
    ensures
        r == spec_cosine_series(t),
{
    let one = Fixed::from_int(1);
    let sq = t.times(t);
    let a = one.minus(sq.over(Fixed::from_int(90)));
    let b = one.minus(sq.over(Fixed::from_int(56)).times(a));
    let c = one.minus(sq.over(Fixed::from_int(30)).times(b));
    let d = one.minus(sq.over(Fixed::from_int(12)).times(c));
    one.minus(sq.over(Fixed::from_int(2)).times(d))
}

/// Sine and cosine of `angle`, in that order.
///
/// The angle is reduced to `[0, TAU)`, split into a quadrant number and a
/// remainder below a quarter turn, and the two series of the remainder are
/// assigned to sine and cosine with the signs of that quadrant.
pub open spec fn spec_sine_cosine(angle: Fixed) -> (Fixed, Fixed) {
    let reduced = angle.raw as int % TAU as int;
    let quadrant = reduced / HALF_PI as int;
    let rest = Fixed { raw: (reduced - quadrant * HALF_PI) as i64 };
    let s = clamp_unit(sine_series(rest));
    let c = clamp_unit(cosine_series(rest));
    if quadrant == 1 {
        (c, s.negated())
    } else if quadrant == 2 {
        (s.negated(), c.negated())
    } else if quadrant == 3 {
        (c.negated(), s)
    } else {
        (s, c)
    }
}

/// Sine and cosine of `angle`, in that order; both lie between minus one
/// and one.
#[verifier::when_used_as_spec(spec_sine_cosine)]
pub fn sine_cosine(angle: Fixed) -> (r: (Fixed, Fixed))
    ensures
        r == spec_sine_cosine(angle),
        -1_000_000 <= r.0.raw <= 1_000_000,
        -1_000_000 <= r.1.raw <= 1_000_000,
{
    let reduced: i64 = if angle.raw >= 0 {
        angle.raw % TAU
    } else {
        let below: i128 = (-(angle.raw as i128)) % (TAU as i128);
        if below == 0 {
            0
        } else {
            TAU - (below as i64)
        }
    };
    assert(reduced as int == angle.raw as int % TAU as int) by {
        if angle.raw < 0 {
            let m = (-(angle.raw as int)) % (TAU as int);
            let q = (-(angle.raw as int)) / (TAU as int);
            assert(-(angle.raw as int) == q * TAU + m) by (nonlinear_arith)
                requires
                    m == (-(angle.raw as int)) % (TAU as int),
                    q == (-(angle.raw as int)) / (TAU as int),
                    TAU == 6_283_185,
            ;
            if m == 0 {
                vstd::arithmetic::div_mod::lemma_fundamental_div_mod_converse(
                    angle.raw as int,
                    TAU as int,
                    -q,
                    0,
                );
            } else {
                vstd::arithmetic::div_mod::lemma_fundamental_div_mod_converse(
                    angle.raw as int,
                    TAU as int,
                    -q - 1,
                    TAU - m,
                );
            }
        }
    }
    let quadrant: i64 = reduced / HALF_PI;
    let rest = Fixed { raw: reduced - quadrant * HALF_PI };
    let s = clamp_unit(sine_series(rest));
    let c = clamp_unit(cosine_series(rest));
    if quadrant == 1 {
        (c, s.negated())
    } else if quadrant == 2 {
        (s.negated(), c.negated())
    } else if quadrant == 3 {
        (c.negated(), s)
    } else {
        (s, c)
    }
}

/// The angle in `[0, PI]` whose cosine is `value`, after `value` has been
/// limited to `[-1, 1]`.
///
/// For `x >= 0` it is `sqrt(1 - x) * (a0 + a1 x + a2 x^2 + a3 x^3)` with
/// `a0 = 1.570729`, `a1 = -0.212114`, `a2 = 0.074261`, `a3 = -0.018729`;
/// for `x < 0` it is `PI` minus the value at `-x`.
pub open spec fn spec_arc_cosine(value: Fixed) -> Fixed {
    let x = clamp_unit(value);
    let m = if x.raw < 0 {
        x.negated()
    } else {
        x
    };
    let inner = Fixed { raw: 74_261 }.plus(m.times(Fixed { raw: -18_729i64 }));
    let middle = Fixed { raw: -212_114i64 }.plus(m.times(inner));
    let outer = Fixed { raw: 1_570_729 }.plus(m.times(middle));
    let positive = Fixed::from_int(1).minus(m).root().times(outer);
    if x.raw < 0 {
        Fixed { raw: PI }.minus(positive)
    } else {
        positive
    }
}

/// The angle in `[0, PI]` whose cosine is `value`, after `value` has been
/// limited to `[-1, 1]`.
#[verifier::when_used_as_spec(spec_arc_cosine)]
pub fn arc_cosine(value: Fixed) -> (r: Fixed)
    ensures
        r == spec_arc_cosine(value),
{
    let x = clamp_unit(value);
    let m = if x.raw < 0 {
        x.negated()
    } else {
        x
    };
    let inner = Fixed { raw: 74_261 }.plus(m.times(Fixed { raw: -18_729i64 }));
    let middle = Fixed { raw: -212_114i64 }.plus(m.times(inner));
    let outer = Fixed { raw: 1_570_729 }.plus(m.times(middle));
    let positive = Fixed::from_int(1).minus(m).root().times(outer);
    if x.raw < 0 {
        Fixed { raw: PI }.minus(positive)
    } else {
        positive
    }
}

} // verus!
