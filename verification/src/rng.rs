//! Linear-congruential pseudo-random state machine.
//!
//! Both the fund simulation and the Monte Carlo engine draw from this
//! generator, each seeded afresh at the start of a call, so that every run is
//! reproducible. The state update and the raw draw taken from each state are
//! pure functions of the seed; the caller turns raw draws into unit-interval
//! samples and normal variates with floating-point arithmetic of its own.

use vstd::prelude::*;
use vstd::arithmetic::div_mod::{
    lemma_add_mod_noop, lemma_mod_bound, lemma_mod_sub_multiples_vanish, lemma_small_mod,
};

verus! {

/// Multiplier of the linear-congruential step.
pub const LCG_MULTIPLIER: u64 = 6364136223846793005;

/// Increment of the linear-congruential step.
pub const LCG_INCREMENT: u64 = 1442695040888963407;

/// The state that follows `s`: `s * LCG_MULTIPLIER + LCG_INCREMENT`,
/// reduced modulo 2^64.
pub open spec fn lcg_next(s: u64) -> u64 {
    ((s * LCG_MULTIPLIER + LCG_INCREMENT) % 0x1_0000_0000_0000_0000) as u64
}

/// The raw draw read off a state: its top 53 bits.
pub open spec fn lcg_output(s: u64) -> u64 {
    s >> 11
}

/// The state reached after `n` steps from `seed`.
pub open spec fn lcg_state_at(seed: u64, n: nat) -> u64
    decreases n,
{
    if n == 0 {
        seed
    } else {
        lcg_next(lcg_state_at(seed, (n - 1) as nat))
    }
}

/// The first `n` raw draws from `seed`; draw `i` is read off state `i + 1`.
pub open spec fn lcg_draws(seed: u64, n: nat) -> Seq<u64> {
    Seq::new(n, |i: int| lcg_output(lcg_state_at(seed, (i + 1) as nat)))
}

/// Deterministic pseudo-random generator: a bare linear-congruential state.
pub struct Rng {
    pub state: u64,
}

impl Rng {
    /// A generator positioned at `seed`.
    pub fn new(seed: u64) -> (r: Rng)
        ensures
            r.state == seed,
    {
        Rng { state: seed }
    }

    /// Advance the state once and return the raw draw of the new state.
    pub fn next_raw(&mut self) -> (r: u64)
        ensures
            final(self).state == lcg_next(old(self).state),
            r == lcg_output(final(self).state),
    {
        proof {
            lemma_lcg_next_is_wrapped_step(self.state);
        }
        self.state = self.state.wrapping_mul(LCG_MULTIPLIER).wrapping_add(LCG_INCREMENT);
        self.state >> 11
    }

    /// Advance the state `count` times and return the raw draws in order.
    pub fn draw_raw(&mut self, count: usize) -> (r: Vec<u64>)
        ensures
            r@ == lcg_draws(old(self).state, count as nat),
            final(self).state == lcg_state_at(old(self).state, count as nat),
    {
        let ghost seed = self.state;
        let mut draws: Vec<u64> = Vec::new();
        let mut i: usize = 0;
        while i < count
            invariant
                i <= count,
                draws@ =~= lcg_draws(seed, i as nat),
                self.state == lcg_state_at(seed, i as nat),
            decreases count - i,
        {
            let d = self.next_raw();
            draws.push(d);
            i = i + 1;
            assert(draws@ =~= lcg_draws(seed, i as nat));
        }
        proof {
            assert(draws@ =~= lcg_draws(seed, count as nat));
        }
        draws
    }
}

/// The wrapping multiply-then-add of the machine step equals the
/// mathematical step reduced modulo 2^64.
proof fn lemma_lcg_next_is_wrapped_step(s: u64)
    ensures
        lcg_next(s) == vstd::wrapping::u64_specs::wrapping_add(
            vstd::wrapping::u64_specs::wrapping_mul(s, LCG_MULTIPLIER),
            LCG_INCREMENT,
        ),
{
    let r: int = 0x1_0000_0000_0000_0000;
    let p: int = s * LCG_MULTIPLIER;
    let m: int = p % r;
    lemma_mod_bound(p, r);
    lemma_add_mod_noop(p, LCG_INCREMENT as int, r);
    lemma_small_mod(LCG_INCREMENT as nat, r as nat);
    if m + LCG_INCREMENT > u64::MAX {
        lemma_mod_sub_multiples_vanish(m + LCG_INCREMENT, r);
        lemma_small_mod((m + LCG_INCREMENT - r) as nat, r as nat);
    } else {
        lemma_small_mod((m + LCG_INCREMENT) as nat, r as nat);
    }
}

/// Determinism of the pseudo-random stream: the draws and the final state
/// depend on the seed and the draw count alone, so repeated runs from one
/// seed are identical bit for bit.
pub proof fn lemma_draws_deterministic(seed1: u64, seed2: u64, n: nat)
    requires
        seed1 == seed2,
    ensures
        lcg_draws(seed1, n) == lcg_draws(seed2, n),
        lcg_state_at(seed1, n) == lcg_state_at(seed2, n),
{
}

} // verus!
