//! Saturating decimal fixed-point numbers.
//!
//! Every quantity of the simulation (lengths, speeds, seconds, radians,
//! device coordinates) is a [`Fixed`]: a 64-bit integer that counts
//! millionths. All operations are total. A result that does not fit is
//! clipped to the nearest representable value, and a quotient or product
//! that is not a whole number of millionths is rounded toward zero.

use vstd::prelude::*;

verus! {

/// Raw units in one whole.
pub const SCALE: i64 = 1_000_000;

/// The representable value nearest to `v`.
pub open spec fn clip(v: int) -> int {
    if v < i64::MIN as int {
        i64::MIN as int
    } else if v > i64::MAX as int {
        i64::MAX as int
    } else {
        v
    }
}

/// Absolute value of an integer.
pub open spec fn magnitude_of(v: int) -> int {
    if v < 0 {
        -v
    } else {
        v
    }
}

/// The quotient `n / d` rounded toward zero, for `d != 0`.
pub open spec fn toward_zero(n: int, d: int) -> int {
    if (n >= 0) == (d > 0) {
        magnitude_of(n) / magnitude_of(d)
    } else {
        -(magnitude_of(n) / magnitude_of(d))
    }
}

/// `r` is the integer square root of `n`: the largest integer whose square
/// does not exceed `n`.
pub open spec fn is_floor_sqrt(n: int, r: int) -> bool {
    &&& r >= 0
    &&& r * r <= n
    &&& n < (r + 1) * (r + 1)
}

/// The integer square root of `n` (meaningful for `n >= 0`).
pub open spec fn floor_sqrt(n: int) -> int {
    choose|r: int| is_floor_sqrt(n, r)
}

/// A number has at most one integer square root.
pub proof fn floor_sqrt_unique(n: int, r1: int, r2: int)
    requires
        is_floor_sqrt(n, r1),
        is_floor_sqrt(n, r2),
    ensures
        r1 == r2,
{
    if r1 < r2 {
        assert((r1 + 1) * (r1 + 1) <= r2 * r2) by (nonlinear_arith)
            requires
                0 <= r1,
                r1 + 1 <= r2,
        ;
    }
    if r2 < r1 {
        assert((r2 + 1) * (r2 + 1) <= r1 * r1) by (nonlinear_arith)
            requires
                0 <= r2,
                r2 + 1 <= r1,
        ;
    }
}

/// Integer square root by bisection.
pub fn isqrt(n: u128) -> (r: u128)
    ensures
        is_floor_sqrt(n as int, r as int),
        r as int == floor_sqrt(n as int),
        r < 0x1_0000_0000_0000_0000,
{
    let mut lo: u128 = 0;
    let mut hi: u128 = 0x1_0000_0000_0000_0000;
    assert(0x1_0000_0000_0000_0000int * 0x1_0000_0000_0000_0000int
        == 0x1_0000_0000_0000_0000_0000_0000_0000_0000int) by (nonlinear_arith);
    while hi - lo > 1
        invariant
            lo < hi <= 0x1_0000_0000_0000_0000,
            lo * lo <= n,
            n < hi * hi,
        decreases hi - lo,
    {
        let mid: u128 = lo + (hi - lo) / 2;
        assert(mid * mid <= 0xffff_ffff_ffff_ffff * 0xffff_ffff_ffff_ffff) by (nonlinear_arith)
            requires
                0 <= mid <= 0xffff_ffff_ffff_ffff,
        ;
        assert(0xffff_ffff_ffff_ffffint * 0xffff_ffff_ffff_ffffint
            < 0x1_0000_0000_0000_0000_0000_0000_0000_0000int) by (nonlinear_arith);
        if mid * mid <= n {
            lo = mid;
        } else {
            hi = mid;
        }
    }
    proof {
        assert(hi == lo + 1);
        assert(is_floor_sqrt(n as int, lo as int));
        floor_sqrt_unique(n as int, lo as int, floor_sqrt(n as int));
    }
    lo
}

/// Brings a wide intermediate result back into range.
fn narrow(v: i128) -> (r: i64)
    ensures
        r as int == clip(v as int),
{
    if v < i64::MIN as i128 {
        i64::MIN
    } else if v > i64::MAX as i128 {
        i64::MAX
    } else {
        v as i64
    }
}

/// Absolute value, widened so that it always fits.
fn widen_abs(v: i128) -> (r: u128)
    requires
        v > i128::MIN,
    ensures
        r as int == magnitude_of(v as int),
{
    if v < 0 {
        (-v) as u128
    } else {
        v as u128
    }
}

/// Division rounded toward zero on wide operands.
fn wide_quotient(n: i128, d: i128) -> (q: i128)
    requires
        d != 0,
        i128::MIN < n,
        i128::MIN < d,
    ensures
        q as int == toward_zero(n as int, d as int),
{
    let nn: u128 = widen_abs(n);
    let dd: u128 = widen_abs(d);
    let qq: u128 = nn / dd;
    assert(qq <= nn) by (nonlinear_arith)
        requires
            qq as int == nn as int / dd as int,
            dd >= 1,
            nn >= 0,
    ;
    if (n >= 0) == (d > 0) {
        qq as i128
    } else {
        -(qq as i128)
    }
}

/// A fixed-point number: `raw` millionths.
#[derive(Clone, Copy, Debug, PartialEq, Eq, Structural)]
pub struct Fixed {
    pub raw: i64,
}

impl Fixed {
    /// The number with the given raw count of millionths.
    pub open spec fn spec_from_raw(raw: i64) -> Fixed {
        Fixed { raw }
    }

    /// The number with the given raw count of millionths.
    #[verifier::when_used_as_spec(spec_from_raw)]
    pub fn from_raw(raw: i64) -> (r: Fixed)
        ensures
            r == Fixed::spec_from_raw(raw),
    {
        Fixed { raw }
    }

    /// The whole number `whole`.
    pub open spec fn spec_from_int(whole: i32) -> Fixed {
        Fixed { raw: (whole * SCALE) as i64 }
    }

    /// The whole number `whole`; always exact.
    #[verifier::when_used_as_spec(spec_from_int)]
    pub fn from_int(whole: i32) -> (r: Fixed)
        ensures
            r == Fixed::spec_from_int(whole),
            r.raw == whole * SCALE,
    {
        Fixed { raw: (whole as i64) * SCALE }
    }

    /// The whole number `count`, clipped.
    pub open spec fn spec_from_count(count: usize) -> Fixed {
        Fixed { raw: clip(count * SCALE) as i64 }
    }

    /// The whole number `count`, clipped.
    #[verifier::when_used_as_spec(spec_from_count)]
    pub fn from_count(count: usize) -> (r: Fixed)
        ensures
            r == Fixed::spec_from_count(count),
    {
        let s: i128 = SCALE as i128;
        assert(s == 1_000_000);
        Fixed { raw: narrow((count as i128) * s) }
    }

    /// Zero.
    pub open spec fn spec_zero() -> Fixed {
        Fixed { raw: 0 }
    }

    /// Zero.
    #[verifier::when_used_as_spec(spec_zero)]
    pub fn zero() -> (r: Fixed)
        ensures
            r == Fixed::spec_zero(),
    {
        Fixed { raw: 0 }
    }

    /// Clipped sum.
    pub open spec fn spec_plus(self, other: Fixed) -> Fixed {
        Fixed { raw: clip(self.raw + other.raw) as i64 }
    }

    /// Clipped sum.
    #[verifier::when_used_as_spec(spec_plus)]
    pub fn plus(self, other: Fixed) -> (r: Fixed)
        ensures
            r == self.spec_plus(other),
    {
        Fixed { raw: narrow(self.raw as i128 + other.raw as i128) }
    }

    /// Clipped difference.
    pub open spec fn spec_minus(self, other: Fixed) -> Fixed {
        Fixed { raw: clip(self.raw - other.raw) as i64 }
    }

    /// Clipped difference.
    #[verifier::when_used_as_spec(spec_minus)]
    pub fn minus(self, other: Fixed) -> (r: Fixed)
        ensures
            r == self.spec_minus(other),
    {
        Fixed { raw: narrow(self.raw as i128 - other.raw as i128) }
    }

    /// Clipped negation.
    pub open spec fn spec_negated(self) -> Fixed {
        Fixed { raw: clip(-self.raw) as i64 }
    }

    /// Clipped negation.
    #[verifier::when_used_as_spec(spec_negated)]
    pub fn negated(self) -> (r: Fixed)
        ensures
            r == self.spec_negated(),
    {
        Fixed { raw: narrow(-(self.raw as i128)) }
    }

    /// Product, rounded toward zero and clipped.
    pub open spec fn spec_times(self, other: Fixed) -> Fixed {
        Fixed { raw: clip(toward_zero(self.raw * other.raw, SCALE as int)) as i64 }
    }

    /// Product, rounded toward zero and clipped.
    #[verifier::when_used_as_spec(spec_times)]
    pub fn times(self, other: Fixed) -> (r: Fixed)
        ensures
            r == self.spec_times(other),
    {
        let a: i128 = self.raw as i128;
        let b: i128 = other.raw as i128;
        assert(-0x4000_0000_0000_0000_0000_0000_0000_0000 <= a * b
            <= 0x4000_0000_0000_0000_0000_0000_0000_0000) by (nonlinear_arith)
            requires
                -0x8000_0000_0000_0000 <= a <= 0x7fff_ffff_ffff_ffff,
                -0x8000_0000_0000_0000 <= b <= 0x7fff_ffff_ffff_ffff,
        ;
        Fixed { raw: narrow(wide_quotient(a * b, SCALE as i128)) }
    }

    /// Quotient, rounded toward zero and clipped. Dividing by zero gives the
    /// extreme value on the dividend's side of zero, and zero for `0 / 0`.
    pub open spec fn spec_over(self, other: Fixed) -> Fixed {
        if other.raw == 0 {
            if self.raw > 0 {
                Fixed { raw: i64::MAX }
            } else if self.raw < 0 {
                Fixed { raw: i64::MIN }
            } else {
                Fixed { raw: 0 }
            }
        } else {
            Fixed { raw: clip(toward_zero(self.raw * SCALE, other.raw as int)) as i64 }
        }
    }

    /// Quotient, rounded toward zero and clipped. Dividing by zero gives the
    /// extreme value on the dividend's side of zero, and zero for `0 / 0`.
    #[verifier::when_used_as_spec(spec_over)]
    pub fn over(self, other: Fixed) -> (r: Fixed)
        ensures
            r == self.spec_over(other),
    {
        if other.raw == 0 {
            if self.raw > 0 {
                Fixed { raw: i64::MAX }
            } else if self.raw < 0 {
                Fixed { raw: i64::MIN }
            } else {
                Fixed { raw: 0 }
            }
        } else {
            let a: i128 = self.raw as i128;
            let s: i128 = SCALE as i128;
            assert(s == 1_000_000);
            Fixed { raw: narrow(wide_quotient(a * s, other.raw as i128)) }
        }
    }

    /// Square root rounded down; zero for a negative number.
    pub open spec fn spec_root(self) -> Fixed {
        if self.raw <= 0 {
            Fixed { raw: 0 }
        } else {
            Fixed { raw: floor_sqrt(self.raw * SCALE) as i64 }
        }
    }

    /// Square root rounded down; zero for a negative number.
    #[verifier::when_used_as_spec(spec_root)]
    pub fn root(self) -> (r: Fixed)
        ensures
            r == self.spec_root(),
            self.raw > 0 ==> is_floor_sqrt(self.raw * SCALE, r.raw as int),
    {
        if self.raw <= 0 {
            Fixed { raw: 0 }
        } else {
            let n: u128 = (self.raw as u128) * (SCALE as u128);
            let s: u128 = isqrt(n);
            assert(s < 0x8000_0000_0000_0000) by (nonlinear_arith)
                requires
                    s * s <= n,
                    n < 0x8000_0000_0000_0000 * 1_000_000,
                    s >= 0,
            ;
            Fixed { raw: s as i64 }
        }
    }
}

} // verus!
