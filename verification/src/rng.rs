//! The single owned stream of randomness.
//!
//! Every operation of the engine that needs chance (sensor noise, crossover
//! cut points, partner keys, mutation draws, respawn placement) draws from one
//! exclusively-owned `RandomSource`, so a simulation is reproducible for a
//! fixed seed.

use vstd::prelude::*;

use rand::Rng;
use rand::RngCore;
use rand::SeedableRng;

verus! {

#[verifier::external_type_specification]
#[verifier::external_body]
pub struct ExStdRng(rand::rngs::StdRng);

/// A seeded pseudo-random stream, the only injected dependency of the engine.
pub struct RandomSource {
    inner: rand::rngs::StdRng,
}

impl RandomSource {
    /// Relies on rand's `SeedableRng::seed_from_u64`: builds a generator whose
    /// stream is a function of the seed alone.
    #[verifier::external_body]
    pub fn from_seed(seed: u64) -> (r: RandomSource) {
        RandomSource { inner: rand::rngs::StdRng::seed_from_u64(seed) }
    }

    /// Relies on rand's `RngCore::next_u32`: a uniform 32-bit value; nothing
    /// can be promised of which one.
    #[verifier::external_body]
    pub(crate) fn next_u32(&mut self) -> (r: u32) {
        self.inner.next_u32()
    }

    /// Relies on rand's `Rng::gen_range` on `0..n` at type `u32`: a uniform
    /// value below `n`. The call panics on an empty range, so `n >= 1`.
    #[verifier::external_body]
    pub(crate) fn below_u32(&mut self, n: u32) -> (r: u32)
        requires
            n >= 1,
        ensures
            r < n,
    {
        self.inner.gen_range(0..n)
    }

    /// Relies on rand's `Rng::gen_range` on `0..n` at type `usize`: a uniform
    /// value below `n`. The call panics on an empty range, so `n >= 1`.
    #[verifier::external_body]
    pub(crate) fn below_usize(&mut self, n: usize) -> (r: usize)
        requires
            n >= 1,
        ensures
            r < n,
    {
        self.inner.gen_range(0..n)
    }

    /// Relies on rand's `Rng::gen_range` on `0..n` at type `i32`: a uniform
    /// value in `[0, n)`. The call panics on an empty range, so `n >= 1`.
    #[verifier::external_body]
    pub(crate) fn below_i32(&mut self, n: i32) -> (r: i32)
        requires
            n >= 1,
        ensures
            0 <= r < n,
    {
        self.inner.gen_range(0..n)
    }
}

} // verus!
