//! The random source that spawning draws from.

use rand::rngs::StdRng;
use rand::Rng;
use vstd::prelude::*;

verus! {

/// Makes [`rand::rngs::StdRng`] known as an opaque type: a seedable random
/// number generator, of which nothing is stated but what its wrappers say.
#[verifier::external_type_specification]
#[verifier::external_body]
pub struct ExStdRng(StdRng);

/// Calls [`rand::Rng::gen_range`] on the half-open range `low..high` of
/// `i64`. That function panics on an empty range, which the precondition
/// excludes, and otherwise returns a member of the range; which one it
/// returns is left open.
#[verifier::external_body]
pub(crate) fn draw_between(rng: &mut StdRng, low: i64, high: i64) -> (r: i64)
    requires
        low < high,
    ensures
        low <= r < high,
{
    rng.gen_range(low..high)
}

} // verus!
