use vstd::prelude::*;

verus! {

/// Multiplier of the linear congruential step (Knuth's MMIX constants).
pub const LCG_MUL: u64 = 6364136223846793005;

/// Increment of the linear congruential step.
pub const LCG_INC: u64 = 1442695040888963407;

/// Two to the sixty-fourth, the generator's modulus.
pub const LCG_MOD: u128 = 0x1_0000_0000_0000_0000;

/// The state that follows `s` in the linear congruential sequence.
pub open spec fn lcg_next(s: u64) -> u64 {
    (((s * LCG_MUL) + LCG_INC) % (LCG_MOD as int)) as u64
}

/// The bit a state yields: whether it lies in the upper half of the range.
pub open spec fn lcg_bit(s: u64) -> bool {
    s >= 0x8000_0000_0000_0000u64
}

/// A small pseudo-random generator for serve directions. It is seeded
/// explicitly and advances deterministically, so a test that fixes the seed
/// fixes every drawn direction. Unpredictability at human timescales is all
/// the game asks of it.
#[derive(Clone, Copy, Debug, PartialEq, Eq, Structural)]
pub struct Rng {
    pub state: u64,
}

impl Rng {
    /// A generator starting from the given seed.
    pub fn new(seed: u64) -> (r: Rng)
        ensures
            r.state == seed,
    {
        Rng { state: seed }
    }

    /// Advances the generator once and returns one pseudo-random bit.
    pub fn next_bit(&mut self) -> (b: bool)
        ensures
            final(self).state == lcg_next(old(self).state),
            b == lcg_bit(final(self).state),
    {
        proof {
            assert((self.state as int) * (LCG_MUL as int) <= (u64::MAX as int) * (LCG_MUL as int))
                by (nonlinear_arith)
                requires
                    self.state <= u64::MAX,
            ;
        }
        let wide: u128 = (self.state as u128) * (LCG_MUL as u128) + (LCG_INC as u128);
        let next: u64 = (wide % LCG_MOD) as u64;
        self.state = next;
        next >= 0x8000_0000_0000_0000u64
    }
}

} // verus!
