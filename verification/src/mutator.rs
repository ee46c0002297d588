//! The mutator: a buffer, a seed, a number of rounds and a catalog,
//! configured step by step and then run.

use vstd::prelude::*;
use crate::catalog::Catalog;
use crate::engine::{mutated, run};

verus! {

/// The number of rounds of a mutator that was not told otherwise.
pub const DEFAULT_NUM_ITERS: usize = 100;

/// The seed of a mutator that was not told otherwise.
pub const DEFAULT_SEED: u64 = 2394923094234;

/// A byte vector mutator.
///
/// It owns the buffer it works on. [`Mutator::mutate`] transforms the buffer
/// in place through the configured number of rounds. Each call seeds a fresh
/// generator from the stored seed, so what a call makes of the buffer
/// depends on nothing but the configuration and the buffer; a second call
/// goes on from the mutated buffer with the same stream of draws.
pub struct Mutator {
    input: Vec<u8>,
    num_iters: usize,
    seed: u64,
    strategies: Catalog,
}

/// What a mutator holds, as plain values.
pub struct MutatorView {
    pub input: Seq<u8>,
    pub num_iters: nat,
    pub seed: u64,
    pub strategies: Catalog,
}

impl View for Mutator {
    type V = MutatorView;

    closed spec fn view(&self) -> MutatorView {
        MutatorView {
            input: self.input@,
            num_iters: self.num_iters as nat,
            seed: self.seed,
            strategies: self.strategies,
        }
    }
}

impl Default for Mutator {
    /// A mutator with an empty buffer, the default number of rounds, the
    /// default seed and the full catalog.
    fn default() -> (mutator: Self)
        ensures
            mutator@ == (MutatorView {
                input: Seq::empty(),
                num_iters: DEFAULT_NUM_ITERS as nat,
                seed: DEFAULT_SEED,
                strategies: Catalog::full(),
            }),
    {
        Self {
            input: Vec::new(),
            num_iters: DEFAULT_NUM_ITERS,
            seed: DEFAULT_SEED,
            strategies: Catalog::full(),
        }
    }
}

impl Mutator {
    /// A mutator with an empty buffer, the default number of rounds, the
    /// default seed and the full catalog.
    pub fn new() -> (mutator: Self)
        ensures
            mutator@ == (MutatorView {
                input: Seq::empty(),
                num_iters: DEFAULT_NUM_ITERS as nat,
                seed: DEFAULT_SEED,
                strategies: Catalog::full(),
            }),
    {
        Mutator::default()
    }

    /// The input byte vector to the mutator.
    pub fn input(self, input: Vec<u8>) -> (mutator: Mutator)
        ensures
            mutator@ == (MutatorView { input: input@, ..self@ }),
    {
        let mut mutator = self;
        mutator.input = input;
        mutator
    }

    /// The seed used for randomizing the mutator's bytes.
    pub fn seed(self, seed: u64) -> (mutator: Mutator)
        ensures
            mutator@ == (MutatorView { seed, ..self@ }),
    {
        let mut mutator = self;
        mutator.seed = seed;
        mutator
    }

    /// The number of mutations performed on the byte vector.
    pub fn num_iters(self, n: usize) -> (mutator: Mutator)
        ensures
            mutator@ == (MutatorView { num_iters: n as nat, ..self@ }),
    {
        let mut mutator = self;
        mutator.num_iters = n;
        mutator
    }

    /// The strategies that the mutator may use.
    pub fn strategies(self, strategies: Catalog) -> (mutator: Mutator)
        ensures
            mutator@ == (MutatorView { strategies, ..self@ }),
    {
        let mut mutator = self;
        mutator.strategies = strategies;
        mutator
    }

    /// Mutate the input buffer.
    pub fn mutate(&mut self)
        ensures
            final(self)@ == (MutatorView {
                input: mutated(
                    old(self)@.strategies,
                    old(self)@.input,
                    old(self)@.seed,
                    old(self)@.num_iters,
                ),
                ..old(self)@
            }),
    {
        run(&self.strategies, &mut self.input, self.seed, self.num_iters);
    }

    /// The seed that each call of [`Mutator::mutate`] starts from.
    pub fn get_seed(&self) -> (seed: u64)
        ensures
            seed == self@.seed,
    {
        self.seed
    }

    /// The number of rounds of each call of [`Mutator::mutate`].
    pub fn get_num_iters(&self) -> (n: usize)
        ensures
            n == self@.num_iters,
    {
        self.num_iters
    }

    /// The strategies that the mutator may use.
    pub fn get_strategies(&self) -> (strategies: Catalog)
        ensures
            strategies == self@.strategies,
    {
        self.strategies
    }

    /// The buffer as it stands.
    pub fn bytes(&self) -> (bytes: &[u8])
        ensures
            bytes@ == self@.input,
    {
        self.input.as_slice()
    }

    /// Gives up the mutator for its buffer.
    pub fn into_bytes(self) -> (bytes: Vec<u8>)
        ensures
            bytes@ == self@.input,
    {
        self.input
    }
}

} // verus!
