//! The uniform random source behind action sampling.

use vstd::prelude::*;
use rand::RngExt;

verus! {

#[verifier::external_type_specification]
#[verifier::external_body]
pub struct ExThreadRng(rand::rngs::ThreadRng);

/// A handle to the thread-local uniform random generator.
pub(crate) struct RandomSource {
    rng: rand::rngs::ThreadRng,
}

impl RandomSource {
    /// Relies on rand::rng: a fresh handle to the thread-local generator.
    #[verifier::external_body]
    pub(crate) fn fresh() -> (r: RandomSource) {
        RandomSource { rng: rand::rng() }
    }

    /// Relies on rand::RngExt::random_range over `0..n`: the draw is uniform
    /// and lies below `n`; the call panics only on an empty range, which the
    /// precondition rules out.
    #[verifier::external_body]
    pub(crate) fn below(&mut self, n: u64) -> (r: u64)
        requires
            n >= 1,
        ensures
            r < n,
    {
        self.rng.random_range(0..n)
    }
}

} // verus!
