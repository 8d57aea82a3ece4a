//! The seeded pseudo-random stream behind the phase-two letter search.
//!
//! The search draws bounded indices from a `rand_pcg::Pcg64` generator that is
//! freshly seeded with a fixed constant on every search, so the values drawn
//! are a deterministic function of the seed, the bound and the position of the
//! draw within the stream. The calls into `rand` and `rand_pcg` stand behind
//! the trusted items of this module; everything else is verified against their
//! contracts.

use vstd::prelude::*;

use rand::Rng;
use rand::SeedableRng;

verus! {

#[verifier::external_type_specification]
#[verifier::external_body]
pub struct ExLcg128Xsl64(rand_pcg::Lcg128Xsl64);

// The value of the draw at position `k` in the stream of `gen_range(0..bound)`
// calls made on a `rand_pcg::Pcg64` generator seeded with
// `seed_from_u64(seed)`, when every draw of the stream uses the same `bound`.
// Both the seeding and each draw are deterministic, so this value is a
// function of `(seed, bound, k)` alone; no contract states which value it is.
pub uninterp spec fn pcg_draw(seed: u64, bound: usize, k: nat) -> usize;

/// A stream of bounded pseudo-random draws from a `Pcg64` generator.
///
/// `seed`, `bound` and `count` describe the generator exactly: `rng` holds the
/// state reached from `seed_from_u64(seed)` after `count` draws, each of them a
/// `gen_range(0..bound)`. The fields are private and only the two trusted
/// items below touch them, so the description cannot be made false from
/// outside this module.
pub(crate) struct DrawStream {
    rng: rand_pcg::Pcg64,
    seed: u64,
    bound: usize,
    count: usize,
}

impl DrawStream {
    /// The seed the stream was started from.
    pub(crate) closed spec fn spec_seed(&self) -> u64 {
        self.seed
    }

    /// The exclusive upper bound of every draw of this stream.
    pub(crate) closed spec fn spec_bound(&self) -> usize {
        self.bound
    }

    /// How many draws have been taken so far.
    pub(crate) closed spec fn spec_count(&self) -> nat {
        self.count as nat
    }

    /// Starts a fresh stream. Relies on `rand_core::SeedableRng::seed_from_u64`
    /// (the provided method, which `rand_pcg::Pcg64` does not override): it
    /// expands the `u64` deterministically into the generator's seed, so equal
    /// seeds give equal generators.
    #[verifier::external_body]
    pub(crate) fn new(seed: u64, bound: usize) -> (s: DrawStream)
        requires
            bound > 0,
        ensures
            s.spec_seed() == seed,
            s.spec_bound() == bound,
            s.spec_count() == 0,
    {
        DrawStream { rng: rand_pcg::Pcg64::seed_from_u64(seed), seed, bound, count: 0 }
    }

    /// Takes the next draw. Relies on `rand::Rng::gen_range(0..bound)`: on a
    /// non-empty range it returns a value below `bound` without panicking, and
    /// it is deterministic in the generator's state, so the draw at position
    /// `count` of a stream is `pcg_draw(seed, bound, count)`. The counter kept
    /// beside the generator records that position.
    #[verifier::external_body]
    pub(crate) fn draw(&mut self) -> (r: usize)
        requires
            old(self).spec_bound() > 0,
            old(self).spec_count() < usize::MAX,
        ensures
            final(self).spec_seed() == old(self).spec_seed(),
            final(self).spec_bound() == old(self).spec_bound(),
            final(self).spec_count() == old(self).spec_count() + 1,
            r == pcg_draw(old(self).spec_seed(), old(self).spec_bound(), old(self).spec_count()),
            r < old(self).spec_bound(),
    {
        let r = self.rng.gen_range(0..self.bound);
        self.count = self.count + 1;
        r
    }
}

} // verus!
