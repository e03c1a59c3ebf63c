//! Trusted access to the random number generator. Nothing is promised of a
//! draw beyond its range: callers state what holds of every outcome.

use vstd::prelude::*;

verus! {

/// Relies on rand::Rng::gen_ratio on the thread-local generator: true with
/// probability `numerator / denominator`. It panics when the denominator is
/// zero or smaller than the numerator, so those inputs are excluded.
#[verifier::external_body]
pub(crate) fn chance(numerator: u32, denominator: u32) -> bool
    requires
        0 < denominator,
        numerator <= denominator,
{
    rand::Rng::gen_ratio(&mut rand::thread_rng(), numerator, denominator)
}

/// Relies on rand::Rng::gen_range on the thread-local generator: a uniform
/// index below `len`. It panics on an empty range, so zero is excluded.
#[verifier::external_body]
pub(crate) fn pick_index(len: usize) -> (r: usize)
    requires
        0 < len,
    ensures
        r < len,
{
    rand::Rng::gen_range(&mut rand::thread_rng(), 0..len)
}

} // verus!
