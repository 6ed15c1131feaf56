use vstd::prelude::*;
use rand::distributions::{Distribution, Uniform};
use rand::rngs::{OsRng, StdRng};
use rand::{Rng, RngCore, SeedableRng};
use crate::error::SimError;

verus! {

/// `rand::rngs::StdRng`, the deterministic generator behind every draw.
/// Its state is opaque to the proofs.
#[verifier::external_type_specification]
#[verifier::external_body]
pub struct ExStdRng(StdRng);

/// `rand::Error`, what the operating system's entropy source reports when
/// it cannot be read.
#[verifier::external_type_specification]
#[verifier::external_body]
pub struct ExRandError(rand::Error);

/// The generator that `StdRng::from_seed` makes of a seed. The call reads
/// nothing but the seed, so equal seeds give equal generators.
pub uninterp spec fn seeded_generator(seed: Seq<u8>) -> StdRng;

/// Calls `StdRng::from_seed`. The generator that comes back is the one that
/// belongs to the seed; nothing is claimed about what it will draw.
#[verifier::external_body]
fn generator_from_seed(seed: [u8; 32]) -> (rng: StdRng)
    ensures
        rng == seeded_generator(seed@),
{
    StdRng::from_seed(seed)
}

/// Calls `OsRng.try_fill_bytes` on the seed buffer. Nothing is claimed about
/// the bytes written nor about when the call fails.
#[verifier::external_body]
fn fill_from_os(seed: &mut [u8; 32]) -> Result<(), rand::Error> {
    OsRng.try_fill_bytes(seed)
}

/// Samples `Uniform::from(0..bound)` once with the generator. The claim is
/// the one the distribution documents: the value lies in the half-open range.
/// The distribution refuses an empty range, hence the precondition.
#[verifier::external_body]
fn sample_below(rng: &mut StdRng, bound: usize) -> (v: usize)
    requires
        bound >= 1,
    ensures
        v < bound,
{
    Uniform::from(0..bound).sample(rng)
}

/// Calls `Rng::gen::<bool>` on the generator. Either value may come back.
#[verifier::external_body]
fn sample_bool(rng: &mut StdRng) -> bool {
    rng.gen::<bool>()
}

/// A seeded pseudorandom source of grid sites and spins.
///
/// The sequence of draws is fixed by the seed and the order of the calls.
pub struct RandomSource {
    rng: StdRng,
}

impl RandomSource {
    /// The generator as it stands: what decides every draw still to come.
    pub closed spec fn state(&self) -> StdRng {
        self.rng
    }

    /// A source that starts from the given seed: its generator is the one
    /// that belongs to the seed.
    pub fn build(seed: [u8; 32]) -> (source: RandomSource)
        ensures
            source.state() == seeded_generator(seed@),
    {
        RandomSource { rng: generator_from_seed(seed) }
    }

    /// What becomes of an attempt to fetch a seed from the operating system:
    /// if the attempt succeeded, the source that starts from `seed`; if it
    /// failed, `EntropyUnavailable`, whatever the reason and whatever `seed`
    /// holds. There is no fallback seed.
    pub fn from_os_seed(fetched: Result<(), rand::Error>, seed: [u8; 32]) -> (r: Result<
        RandomSource,
        SimError,
    >)
        ensures
            r is Ok <==> fetched is Ok,
            r matches Ok(source) ==> source.state() == seeded_generator(seed@),
            r matches Err(e) ==> e == SimError::EntropyUnavailable,
    {
        match fetched {
            Ok(_) => Ok(RandomSource::build(seed)),
            Err(_) => Err(SimError::EntropyUnavailable),
        }
    }

    /// A source seeded by the operating system.
    ///
    /// Succeeds exactly when the operating system supplies the 32 bytes of
    /// the seed, and then starts from that seed. Fails with
    /// `EntropyUnavailable`, and with nothing else, when it does not.
    pub fn from_entropy() -> (r: Result<RandomSource, SimError>)
        ensures
            r matches Ok(source) ==> exists|seed: Seq<u8>|
                seed.len() == 32 && source.state() == #[trigger] seeded_generator(seed),
            r matches Err(e) ==> e == SimError::EntropyUnavailable,
    {
        let mut seed: [u8; 32] = [128u8; 32];
        let fetched = fill_from_os(&mut seed);
        RandomSource::from_os_seed(fetched, seed)
    }

    /// Draws the two coordinates of a site, `x` first, each from `[0, side)`.
    pub fn next_site(&mut self, side: usize) -> (site: (usize, usize))
        requires
            side >= 1,
        ensures
            site.0 < side,
            site.1 < side,
    {
        let x = sample_below(&mut self.rng, side);
        let y = sample_below(&mut self.rng, side);
        (x, y)
    }

    /// Draws one spin, up or down.
    pub fn next_spin(&mut self) -> (up: bool) {
        sample_bool(&mut self.rng)
    }

    /// The generator itself, for draws of kinds this source does not offer.
    ///
    /// The reference points at the generator as it stands, and the source
    /// goes on from wherever the caller leaves it.
    pub fn generator(&mut self) -> (rng: &mut StdRng)
        ensures
            *rng == old(self).state(),
            final(self).state() == *final(rng),
    {
        &mut self.rng
    }
}

} // verus!
