//! The explicit random source threaded through the controller, the growth
//! processes and the sampler. It wraps rand's `StdRng`; the draws the core
//! relies on go through one trusted wrapper whose contract promises only the
//! range of the result, never which value comes back.

use vstd::prelude::*;

verus! {

#[verifier::external_type_specification]
#[verifier::external_body]
pub struct ExStdRng(rand::rngs::StdRng);

/// Relies on rand's `StdRng::seed_from_u64` (`SeedableRng`): builds a
/// generator whose stream is derived from the seed. Nothing about the
/// stream is promised here.
#[verifier::external_body]
fn std_rng_from_seed(seed: u64) -> rand::rngs::StdRng {
    <rand::rngs::StdRng as rand::SeedableRng>::seed_from_u64(seed)
}

/// Relies on rand's `Rng::gen_range` on `0..n`: it returns a value of the
/// given range and panics only on an empty one, which the precondition
/// rules out.
#[verifier::external_body]
fn std_rng_below(rng: &mut rand::rngs::StdRng, n: usize) -> (r: usize)
    requires
        n >= 1,
    ensures
        r < n,
{
    rand::Rng::gen_range(rng, 0..n)
}

/// The world's random source. Every draw the generation algorithm makes
/// goes through this handle, so a run is reproducible exactly when the
/// underlying generator is. It is built from an explicit seed only: a
/// caller that wants an arbitrary world reads the operating system's
/// entropy itself — that is I/O, and it can fail — and hands the seed in.
pub struct WorldRandom {
    rng: rand::rngs::StdRng,
}

impl WorldRandom {
    /// A generator derived from an explicit seed, for reproducible runs.
    pub fn from_seed(seed: u64) -> WorldRandom {
        WorldRandom { rng: std_rng_from_seed(seed) }
    }

    /// A uniform draw from `0 .. n`. Only the range is known to callers.
    pub fn below(&mut self, n: usize) -> (r: usize)
        requires
            n >= 1,
        ensures
            r < n,
    {
        std_rng_below(&mut self.rng, n)
    }
}

} // verus!
