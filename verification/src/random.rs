//! Uniform randomness, drawn from the thread-local generator of the `rand`
//! crate.  Every verified caller states only what holds of any outcome.

use vstd::prelude::*;
use rand::RngExt;

verus! {

/// Relies on rand's `RngExt::random_range` on the thread-local generator: a
/// uniform draw from the half-open range `0..bound`.  Nothing beyond the
/// range can be promised of a random value.
#[verifier::external_body]
pub(crate) fn random_below(bound: u64) -> (r: u64)
    requires
        bound >= 1,
    ensures
        r < bound,
{
    rand::rng().random_range(0..bound)
}

} // verus!
