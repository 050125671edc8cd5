//! The pseudo-random noise generator: a 32-bit linear congruential generator
//! with a fixed seed, advanced a fixed number of times per processed sample.
//! Its state sequence is fully determined by the seed, so every draw can be
//! checked against an independently computed golden sequence.

use vstd::prelude::*;

verus! {

/// Multiplier of the linear congruential generator.
pub const LCG_MUL: u32 = 1664525;

/// Increment of the linear congruential generator.
pub const LCG_INC: u32 = 1013904223;

/// Seed installed at the start of every processing call.
pub const LCG_SEED: u32 = 0x1234_abcd;

/// One generator step: `s * LCG_MUL + LCG_INC`, wrapping modulo `2^32`.
pub open spec fn lcg_step(s: u32) -> u32 {
    ((s * LCG_MUL + LCG_INC) % 0x1_0000_0000) as u32
}

/// The state reached after `n` steps from state `s`.
pub open spec fn lcg_iter(s: u32, n: nat) -> u32
    decreases n,
{
    if n == 0 {
        s
    } else {
        lcg_step(lcg_iter(s, (n - 1) as nat))
    }
}

/// The 23-bit noise word drawn from a state: its top 23 bits.
pub open spec fn noise_bits(s: u32) -> u32 {
    s / 512
}

/// The two wrapping operations of one executable step compute `lcg_step`.
proof fn lemma_lcg_step_wrapping(s: u32)
    ensures
        vstd::wrapping::u32_specs::wrapping_add(
            vstd::wrapping::u32_specs::wrapping_mul(s, LCG_MUL),
            LCG_INC,
        ) == lcg_step(s),
{
    let r: int = 0x1_0000_0000;
    let p: int = s * LCG_MUL;
    let m: int = p % r;
    vstd::arithmetic::div_mod::lemma_mod_bound(p, r);
    vstd::arithmetic::div_mod::lemma_add_mod_noop(p, LCG_INC as int, r);
    vstd::arithmetic::div_mod::lemma_small_mod(LCG_INC as nat, r as nat);
    if m + LCG_INC < r {
        vstd::arithmetic::div_mod::lemma_small_mod((m + LCG_INC) as nat, r as nat);
    } else {
        vstd::arithmetic::div_mod::lemma_mod_sub_multiples_vanish(m + LCG_INC, r);
        vstd::arithmetic::div_mod::lemma_small_mod((m + LCG_INC - r) as nat, r as nat);
    }
}

/// Advancing a state `m + n` steps is advancing it `m` steps and then `n`
/// steps: the generator's sequence is one fixed stream, however the draws
/// are grouped.
pub proof fn lemma_lcg_iter_add(s: u32, m: nat, n: nat)
    ensures
        lcg_iter(s, m + n) == lcg_iter(lcg_iter(s, m), n),
    decreases n,
{
    if n > 0 {
        lemma_lcg_iter_add(s, m, (n - 1) as nat);
    }
}

/// Running state of the noise generator.  The ghost draw counter ties the
/// state to the seed: after `draws` draws the state is exactly
/// `lcg_iter(LCG_SEED, draws)`.
pub struct NoiseGen {
    pub state: u32,
    pub draws: Ghost<nat>,
}

impl NoiseGen {
    /// The state is the one the fixed seed reaches after `draws` steps.
    pub open spec fn wf(self) -> bool {
        self.state == lcg_iter(LCG_SEED, self.draws@)
    }

    /// A fresh generator, seeded as every processing call seeds it.
    pub fn new() -> (g: NoiseGen)
        ensures
            g.wf(),
            g.state == LCG_SEED,
            g.draws@ == 0,
    {
        NoiseGen { state: LCG_SEED, draws: Ghost(0nat) }
    }

    /// Advance the state once and hand out the new state's noise word.
    pub fn next_bits(&mut self) -> (bits: u32)
        requires
            old(self).wf(),
        ensures
            final(self).wf(),
            final(self).draws@ == old(self).draws@ + 1,
            final(self).state == lcg_step(old(self).state),
            bits == noise_bits(final(self).state),
            bits < 0x80_0000,
    {
        proof {
            lemma_lcg_step_wrapping(self.state);
        }
        self.state = self.state.wrapping_mul(LCG_MUL).wrapping_add(LCG_INC);
        self.draws = Ghost(self.draws@ + 1);
        let s: u32 = self.state;
        let bits: u32 = s >> 9;
        proof {
            assert(s >> 9u32 == s / 512 && s >> 9u32 < 0x80_0000) by (bit_vector);
        }
        bits
    }
}

/// Two generators that have made the same number of draws hold the same
/// state: the noise stream is fixed by the seed alone, with no outside
/// entropy, so every run reproduces the same hiss and crackle values.
pub proof fn lemma_generator_reproducible(a: NoiseGen, b: NoiseGen)
    requires
        a.wf(),
        b.wf(),
        a.draws@ == b.draws@,
    ensures
        a.state == b.state,
{
}

} // verus!
