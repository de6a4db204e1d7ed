//! The one source of chance: the thread's random number generator.
use vstd::prelude::*;
use rand::Rng;

verus! {

/// Draws an integer from `low..high` with `rand::thread_rng()` and
/// `Rng::gen_range`. The generator is seeded by the system, so nothing is
/// claimed of the number but that it lies in the range: at least `low` and
/// less than `high`. `gen_range` panics on an empty range, which the
/// precondition rules out.
#[verifier::external_body]
pub(crate) fn sample_range(low: i64, high: i64) -> (n: i64)
    requires
        low < high,
    ensures
        low <= n < high,
{
    rand::thread_rng().gen_range(low..high)
}

} // verus!
