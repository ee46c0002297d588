//! Rounds of mutation.
//!
//! A round selects a strategy for the buffer at hand, draws its parameters
//! and applies the mutation. All of it is driven by one generator, which is
//! seeded once, before the first round, so the outcome of any number of
//! rounds is a function of the catalog, the buffer, the seed and the number
//! of rounds. An empty buffer has no byte to work on: a round leaves it
//! empty and draws nothing.

use vstd::prelude::*;
use crate::catalog::Catalog;
use crate::mutation::Mutation;
use crate::rng::{advance, word, Rng};
use crate::strategy::Strategy;

verus! {

/// The strategy that a round selects for the non-empty buffer `buf` with a
/// generator in state `state`: the first word drawn decides.
pub open spec fn round_strategy(catalog: Catalog, buf: Seq<u8>, state: u64) -> Strategy {
    catalog.selected(buf.len(), word(state))
}

/// The mutation that a round applies to the non-empty buffer `buf` with a
/// generator in state `state`: the selected strategy draws it from the
/// words that follow the first.
pub open spec fn round_mutation(catalog: Catalog, buf: Seq<u8>, state: u64) -> Mutation {
    round_strategy(catalog, buf, state).chosen(buf.len() as usize, advance(state))
}

/// The buffer and the generator state after one round on `buf` with a
/// generator in state `state`.
pub open spec fn after_round(catalog: Catalog, buf: Seq<u8>, state: u64) -> (Seq<u8>, u64) {
    if buf.len() == 0 {
        (buf, state)
    } else {
        (
            round_mutation(catalog, buf, state).applied(buf),
            round_strategy(catalog, buf, state).state_after(advance(state)),
        )
    }
}

/// The buffer and the generator state after `count` rounds.
pub open spec fn after_rounds(catalog: Catalog, buf: Seq<u8>, state: u64, count: nat) -> (
    Seq<u8>,
    u64,
)
    decreases count,
{
    if count == 0 {
        (buf, state)
    } else {
        let (before, drawing) = after_rounds(catalog, buf, state, (count - 1) as nat);
        after_round(catalog, before, drawing)
    }
}

/// The buffer that `count` rounds make of `buf` with a generator seeded with
/// `seed`.
pub open spec fn mutated(catalog: Catalog, buf: Seq<u8>, seed: u64, count: nat) -> Seq<u8> {
    after_rounds(catalog, buf, seed, count).0
}

/// Runs one round on `buf`.
pub fn round(catalog: &Catalog, buf: &mut Vec<u8>, rng: &mut Rng)
    ensures
        (final(buf)@, final(rng)@) == after_round(*catalog, old(buf)@, old(rng)@),
{
    let len: usize = buf.len();
    if len == 0 {
        return;
    }
    let strategy = catalog.select(len, rng.next_u64());
    match strategy.draw(len, rng) {
        Some(mutation) => {
            mutation.apply(buf);
        },
        None => {},
    }
}

/// Runs `num_iters` rounds on `buf` with a generator seeded with `seed`.
pub fn run(catalog: &Catalog, buf: &mut Vec<u8>, seed: u64, num_iters: usize)
    ensures
        final(buf)@ == mutated(*catalog, old(buf)@, seed, num_iters as nat),
{
    let mut rng = Rng::new(seed);
    let mut done: usize = 0;
    while done < num_iters
        invariant
            done <= num_iters,
            (buf@, rng@) == after_rounds(*catalog, old(buf)@, seed, done as nat),
        decreases num_iters - done,
    {
        round(catalog, buf, &mut rng);
        done += 1;
    }
}

/// Mutates `input` through `num_iters` rounds of the full catalog, with a
/// generator seeded with `seed`.
pub fn mutate(input: Vec<u8>, seed: u64, num_iters: usize) -> (output: Vec<u8>)
    ensures
        output@ == mutated(Catalog::full(), input@, seed, num_iters as nat),
{
    let mut buf = input;
    run(&Catalog::full(), &mut buf, seed, num_iters);
    buf
}

} // verus!
