//! The one randomness primitive the spawner draws from.

use vstd::prelude::*;

verus! {

/// Relies on rand's `Rng::gen_range` over the half-open range
/// `low..high`: it returns a value uniformly sampled from `[low, high)`
/// and panics only when the range is empty, which the precondition
/// rules out.  Nothing beyond membership in the range is assumed: two
/// calls with the same arguments may differ.
#[verifier::external_body]
pub(crate) fn sample_in_range(low: i64, high: i64) -> (r: i64)
    requires
        low < high,
    ensures
        low <= r < high,
{
    rand::Rng::gen_range(&mut rand::thread_rng(), low..high)
}

} // verus!
