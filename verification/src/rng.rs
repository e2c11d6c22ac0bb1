//! The spawner's source of randomness, behind a trusted boundary.
//!
//! Nothing can be promised of a random draw beyond its range, so the
//! contract states the range alone and every caller is verified for every
//! value the range admits.

use vstd::prelude::*;
use rand::Rng;

verus! {

/// Relies on `rand::Rng::gen_range` over `low..high` (via `rand::thread_rng`):
/// it returns a uniformly distributed value in the half-open range and panics
/// only when the range is empty.
#[verifier::external_body]
pub(crate) fn random_in_range(low: u64, high: u64) -> (r: u64)
    requires
        low < high,
    ensures
        low <= r < high,
{
    rand::thread_rng().gen_range(low..high)
}

} // verus!
