use vstd::prelude::*;
use rand::rngs::StdRng;
use rand::Rng;
use rand::SeedableRng;

verus! {

#[verifier::external_type_specification]
#[verifier::external_body]
pub struct ExStdRng(StdRng);

/// `SeedableRng::seed_from_u64` for `StdRng`: a generator whose whole stream
/// is fixed by the seed. Nothing is claimed of the generator itself.
#[verifier::external_body]
fn seeded_generator(seed: u64) -> StdRng {
    StdRng::seed_from_u64(seed)
}

/// `Rng::gen_range` over `0..bound`. The call panics on an empty range, so the
/// bound must be positive; whatever is drawn lies below the bound.
#[verifier::external_body]
fn draw_below(rng: &mut StdRng, bound: usize) -> (drawn: usize)
    requires
        bound > 0,
    ensures
        drawn < bound,
{
    rng.gen_range(0..bound)
}

/// The source of every random choice the simulation makes. Two sources made
/// from one seed give the same draws in the same order.
pub struct RandomSource {
    rng: StdRng,
}

impl RandomSource {
    pub fn from_seed(seed: u64) -> RandomSource {
        RandomSource { rng: seeded_generator(seed) }
    }

    /// A uniform draw from `0..len`.
    pub fn index_below(&mut self, len: usize) -> (i: usize)
        requires
            len > 0,
        ensures
            i < len,
    {
        draw_below(&mut self.rng, len)
    }

    /// A uniform draw from `0..255`, the range a colour channel is seeded from.
    pub fn channel(&mut self) -> (c: u8)
        ensures
            c < 255,
    {
        let drawn: usize = draw_below(&mut self.rng, 255);
        drawn as u8
    }
}

} // verus!
