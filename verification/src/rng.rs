//! The pseudo-random boolean source behind the random fill: rand's standard
//! generator, seeded from a fixed value so that the sequences it yields are
//! reproducible. Its abstract state is the seed it was built from and how
//! many booleans have been drawn; the draw at each position of the sequence
//! is a fixed, named value.

use vstd::prelude::*;

use rand::Rng;
use rand::SeedableRng;

verus! {

/// The fixed seed shared by process start and every reset, which makes the
/// random-fill sequences reproducible across restarts and resets.
pub const FIXED_SEED: u64 = 2024;

#[verifier::external_type_specification]
#[verifier::external_body]
pub struct ExStdRng(rand::rngs::StdRng);

/// The boolean that rand's standard generator, seeded from `seed` by
/// `seed_from_u64`, yields as its draw number `index`. The generator is
/// deterministic, so this is a function of the seed and the position alone.
pub uninterp spec fn std_draw(seed: u64, index: nat) -> bool;

/// A re-seedable source of uniform booleans. Abstractly it is a seed and a
/// position in that seed's draw sequence.
pub struct RandomSource {
    rng: rand::rngs::StdRng,
    seed: Ghost<u64>,
    count: Ghost<nat>,
}

impl RandomSource {
    /// The seed this source was built from.
    pub closed spec fn seed(self) -> u64 {
        self.seed@
    }

    /// How many booleans have been drawn since the source was seeded.
    pub closed spec fn count(self) -> nat {
        self.count@
    }

    /// A source seeded from `seed`, at the start of that seed's sequence.
    pub fn with_seed(seed: u64) -> (r: RandomSource)
        ensures
            r.seed() == seed,
            r.count() == 0,
    {
        RandomSource { rng: seeded_rng(seed), seed: Ghost(seed), count: Ghost(0) }
    }

    /// A source seeded from the fixed seed, as built at process start.
    pub fn with_fixed_seed() -> (r: RandomSource)
        ensures
            r.seed() == FIXED_SEED,
            r.count() == 0,
    {
        RandomSource::with_seed(FIXED_SEED)
    }

    /// Reseed with the fixed seed: the source restarts the fixed seed's
    /// sequence from its beginning.
    pub fn reseed(&mut self)
        ensures
            final(self).seed() == FIXED_SEED,
            final(self).count() == 0,
    {
        *self = RandomSource::with_seed(FIXED_SEED);
    }

    /// Draw one uniform boolean: the next value of the seed's sequence.
    pub fn next_bool(&mut self) -> (b: bool)
        ensures
            final(self).seed() == old(self).seed(),
            final(self).count() == old(self).count() + 1,
            b == std_draw(old(self).seed(), old(self).count()),
    {
        generator_draw(self)
    }
}

/// Relies on rand::rngs::StdRng::seed_from_u64: the generator state it
/// builds is a function of the seed alone.
#[verifier::external_body]
fn seeded_rng(seed: u64) -> (r: rand::rngs::StdRng)
{
    rand::rngs::StdRng::seed_from_u64(seed)
}

/// Relies on rand::Rng::gen::<bool>: the draw is a pure function of the
/// generator state (rand's standard generator is deterministic), so
/// successive draws from a seed form the fixed sequence named `std_draw`.
/// The fields of `RandomSource` are private, and this module's constructors
/// keep the ghost seed and position in step with the generator's state.
#[verifier::external_body]
fn generator_draw(src: &mut RandomSource) -> (b: bool)
    ensures
        final(src).seed() == old(src).seed(),
        final(src).count() == old(src).count() + 1,
        b == std_draw(old(src).seed(), old(src).count()),
{
    src.rng.gen::<bool>()
}

} // verus!
