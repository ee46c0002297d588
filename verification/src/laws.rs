//! What holds of every run of the engine.
//!
//! The statements speak of buffers that a `Vec` can hold, that is of at
//! most `usize::MAX` bytes.

use vstd::prelude::*;
use crate::catalog::Catalog;
use crate::engine::{after_round, after_rounds, mutate, mutated, round_mutation, round_strategy};
use crate::mutation::{differ_only_at, MAX_LEN};
use crate::rng::advance;
use crate::strategy::Strategy;

verus! {

/// Mutation is deterministic: whatever two calls of [`mutate`] return for
/// equal buffers, equal seeds and equal numbers of rounds, the two results
/// hold the same bytes.
pub proof fn mutate_is_deterministic(
    first_input: Vec<u8>,
    second_input: Vec<u8>,
    seed: u64,
    num_iters: usize,
    first_output: Vec<u8>,
    second_output: Vec<u8>,
)
    requires
        first_input@ == second_input@,
        call_ensures(mutate, (first_input, seed, num_iters), first_output),
        call_ensures(mutate, (second_input, seed, num_iters), second_output),
    ensures
        first_output@ == second_output@,
{
}

/// No rounds, no change.
pub proof fn zero_rounds_change_nothing(catalog: Catalog, buf: Seq<u8>, seed: u64)
    ensures
        mutated(catalog, buf, seed, 0) == buf,
{
}

/// An empty buffer stays empty, whatever the catalog, the seed and the
/// number of rounds.
pub proof fn empty_stays_empty(catalog: Catalog, seed: u64, count: nat)
    ensures
        after_rounds(catalog, Seq::empty(), seed, count) == (Seq::<u8>::empty(), seed),
        mutated(catalog, Seq::empty(), seed, count) == Seq::<u8>::empty(),
    decreases count,
{
    if count > 0 {
        empty_stays_empty(catalog, seed, (count - 1) as nat);
    }
}

/// The mutation of a round on a non-empty buffer stays within the bounds
/// of the buffer, and it is an instance of an enabled strategy that can be
/// applied to the buffer, or else a bit flip.
pub proof fn round_mutation_is_in_bounds(catalog: Catalog, buf: Seq<u8>, state: u64)
    requires
        0 < buf.len() <= usize::MAX,
    ensures
        round_mutation(catalog, buf, state).well_formed(buf.len()),
        round_mutation(catalog, buf, state).kind() == round_strategy(catalog, buf, state),
        round_strategy(catalog, buf, state).applicable(buf.len()),
        round_strategy(catalog, buf, state) == Strategy::BitFlip || catalog.enables(
            round_strategy(catalog, buf, state),
        ),
{
    round_strategy(catalog, buf, state).chosen_is_well_formed(
        buf.len() as usize,
        advance(state),
    );
}

/// A round changes the length of a buffer only by duplication or deletion:
/// a round whose strategy is neither keeps the length.
pub proof fn round_keeps_length_unless_structural(catalog: Catalog, buf: Seq<u8>, state: u64)
    requires
        buf.len() <= usize::MAX,
        buf.len() > 0 ==> round_strategy(catalog, buf, state).length_preserving(),
    ensures
        after_round(catalog, buf, state).0.len() == buf.len(),
{
    if buf.len() > 0 {
        round_mutation_is_in_bounds(catalog, buf, state);
        round_mutation(catalog, buf, state).applied_has_length(buf);
    }
}

/// With a catalog of strategies that keep the length, the buffer has the
/// length of the input after any number of rounds.
pub proof fn fixed_length_catalog_keeps_length(
    catalog: Catalog,
    buf: Seq<u8>,
    seed: u64,
    count: nat,
)
    requires
        buf.len() <= usize::MAX,
        catalog.length_preserving(),
    ensures
        mutated(catalog, buf, seed, count).len() == buf.len(),
    decreases count,
{
    if count > 0 {
        fixed_length_catalog_keeps_length(catalog, buf, seed, (count - 1) as nat);
        let (before, drawing) = after_rounds(catalog, buf, seed, (count - 1) as nat);
        if before.len() > 0 {
            round_mutation_is_in_bounds(catalog, before, drawing);
        }
        round_keeps_length_unless_structural(catalog, before, drawing);
    }
}

/// A buffer of one byte is too short for duplication and for deletion: a
/// bit flip takes their place, and the buffer is one byte long after any
/// number of rounds, whatever the catalog.
pub proof fn one_byte_buffer_keeps_length(catalog: Catalog, buf: Seq<u8>, seed: u64, count: nat)
    requires
        buf.len() == 1,
    ensures
        mutated(catalog, buf, seed, count).len() == 1,
    decreases count,
{
    if count > 0 {
        one_byte_buffer_keeps_length(catalog, buf, seed, (count - 1) as nat);
        let (before, drawing) = after_rounds(catalog, buf, seed, (count - 1) as nat);
        round_mutation_is_in_bounds(catalog, before, drawing);
        round_keeps_length_unless_structural(catalog, before, drawing);
    }
}

/// The length after one round: a duplication at most adds half the buffer
/// and never grows it beyond `MAX_LEN`, a deletion at most removes half of
/// it and leaves two bytes or more, and every other round keeps the length.
pub proof fn round_length_bounds(catalog: Catalog, buf: Seq<u8>, state: u64)
    requires
        buf.len() <= usize::MAX,
    ensures
        ({
            let len = buf.len();
            let after = after_round(catalog, buf, state).0.len();
            match round_strategy(catalog, buf, state) {
                Strategy::Duplicate if len > 0 => len < after <= len + len / 2 && after <= MAX_LEN,
                Strategy::Delete if len > 0 => len - (len - 1) / 2 <= after < len && 2 <= after,
                _ => after == len,
            }
        }),
{
    if buf.len() > 0 {
        round_mutation_is_in_bounds(catalog, buf, state);
        round_mutation(catalog, buf, state).applied_has_length(buf);
    }
}

/// Through any number of rounds the buffer stays a buffer that a `Vec` can
/// hold: it never grows beyond `MAX_LEN` bytes, or beyond the length of the
/// input where that is more. A non-empty buffer stays non-empty, and one of
/// two bytes or more keeps two bytes or more.
pub proof fn rounds_keep_length_in_bounds(catalog: Catalog, buf: Seq<u8>, seed: u64, count: nat)
    requires
        buf.len() <= usize::MAX,
    ensures
        ({
            let after = mutated(catalog, buf, seed, count).len();
            &&& after <= usize::MAX
            &&& after <= buf.len() || after <= MAX_LEN
            &&& buf.len() >= 1 ==> after >= 1
            &&& buf.len() >= 2 ==> after >= 2
        }),
    decreases count,
{
    if count > 0 {
        rounds_keep_length_in_bounds(catalog, buf, seed, (count - 1) as nat);
        let (before, drawing) = after_rounds(catalog, buf, seed, (count - 1) as nat);
        round_length_bounds(catalog, before, drawing);
    }
}

/// A round with a catalog of single-byte strategies changes exactly one
/// byte of a non-empty buffer.
pub proof fn single_byte_round_changes_one_byte(catalog: Catalog, buf: Seq<u8>, state: u64)
    requires
        0 < buf.len() <= usize::MAX,
        catalog.single_byte(),
    ensures
        exists|index: int| differ_only_at(buf, after_round(catalog, buf, state).0, index),
{
    let mutation = round_mutation(catalog, buf, state);
    round_mutation_is_in_bounds(catalog, buf, state);
    assert(mutation.kind().single_byte());
    mutation.single_byte_edit_changes_one_byte(buf);
    assert(after_round(catalog, buf, state).0 == mutation.applied(buf));
}

} // verus!
