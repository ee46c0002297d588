//! SplitMix64, the deterministic pseudo-random source behind every mutation.
//!
//! The generator keeps one 64-bit word of state. Each draw adds a fixed odd
//! increment to the state (wrapping) and scrambles the new state into the
//! output word, so the output sequence is a function of the seed alone, on
//! every platform, and a draw costs a handful of register operations.
//!
//! Bounded samples are the output word reduced modulo the bound. For a bound
//! `b` the probability of any one result differs from `1 / b` by less than
//! `2^-64`, which is far below anything a mutation campaign can observe.

use vstd::prelude::*;

verus! {

/// The increment added to the state on every draw.
pub const GOLDEN_GAMMA: u64 = 0x9E37_79B9_7F4A_7C15;

/// The state that follows `state`.
pub open spec fn advance(state: u64) -> u64 {
    state.wrapping_add(GOLDEN_GAMMA)
}

/// The output word that a state yields.
pub open spec fn scramble(state: u64) -> u64 {
    let a = (state ^ (state >> 30u64)).wrapping_mul(0xBF58_476D_1CE4_E5B9u64);
    let b = (a ^ (a >> 27u64)).wrapping_mul(0x94D0_49BB_1331_11EBu64);
    b ^ (b >> 31u64)
}

/// The word drawn from a generator that is in state `state`.
pub open spec fn word(state: u64) -> u64 {
    scramble(advance(state))
}

/// The sample below `bound` drawn from a generator that is in state `state`.
pub open spec fn sample(state: u64, bound: u64) -> u64 {
    word(state) % bound
}

/// The index below `bound` drawn from a generator that is in state `state`.
pub open spec fn sample_index(state: u64, bound: usize) -> usize {
    sample(state, bound as u64) as usize
}

/// A SplitMix64 generator. Its view is the state word.
pub struct Rng {
    state: u64,
}

impl View for Rng {
    type V = u64;

    closed spec fn view(&self) -> u64 {
        self.state
    }
}

impl Rng {
    /// A generator whose state is `seed`. Every 64-bit seed is valid.
    pub fn new(seed: u64) -> (rng: Rng)
        ensures
            rng@ == seed,
    {
        Rng { state: seed }
    }

    /// Advances the state once and returns the word it yields.
    pub fn next_u64(&mut self) -> (drawn: u64)
        ensures
            final(self)@ == advance(old(self)@),
            drawn == word(old(self)@),
    {
        self.state = self.state.wrapping_add(GOLDEN_GAMMA);
        let a: u64 = (self.state ^ (self.state >> 30u64)).wrapping_mul(0xBF58_476D_1CE4_E5B9u64);
        let b: u64 = (a ^ (a >> 27u64)).wrapping_mul(0x94D0_49BB_1331_11EBu64);
        b ^ (b >> 31u64)
    }

    /// Draws one word and reduces it to a sample in `0..bound`.
    pub fn below(&mut self, bound: u64) -> (drawn: u64)
        requires
            bound > 0,
        ensures
            final(self)@ == advance(old(self)@),
            drawn == sample(old(self)@, bound),
            drawn < bound,
    {
        self.next_u64() % bound
    }

    /// Draws one word and reduces it to an index in `0..bound`.
    pub fn index(&mut self, bound: usize) -> (drawn: usize)
        requires
            bound > 0,
        ensures
            final(self)@ == advance(old(self)@),
            drawn == sample_index(old(self)@, bound),
            drawn < bound,
    {
        self.below(bound as u64) as usize
    }
}

} // verus!
