//! The library's single source of randomness: a uniform integer draw.
//!
//! Every stochastic choice the simulation makes (decay flags, per-cell
//! jitter, row jumps, ember spawning, the randomized seed row) is derived
//! from draws of `rand_below`, so the contracts elsewhere state only what
//! holds of every possible outcome.

use vstd::prelude::*;
use rand::Rng;

verus! {

/// Relies on `rand::thread_rng` and `rand::Rng::gen_range` to draw a uniform
/// integer from `[0, n)`; `gen_range` panics only on an empty range, which
/// `n >= 1` rules out.
#[verifier::external_body]
pub(crate) fn rand_below(n: u64) -> (r: u64)
    requires
        n >= 1,
    ensures
        r < n,
{
    rand::thread_rng().gen_range(0..n)
}

} // verus!
