//! The library's one source of randomness.
//!
//! Spawn directions and sizes have no reproducibility contract: the draws
//! must only be uniform and independent per call. Everything the simulation
//! concludes from a draw is proved for every value the range allows.

use vstd::prelude::*;

verus! {

/// Relies on `rand::random_range`: a uniform draw out of the half-open
/// range `0..n` from the thread-local generator. Nothing is assumed of the
/// outcome but its range; the range would be empty for `n == 0`, so that
/// input is excluded.
#[verifier::external_body]
pub(crate) fn random_below(n: u64) -> (r: u64)
    requires
        n > 0,
    ensures
        r < n,
{
    rand::random_range(0..n)
}

} // verus!
