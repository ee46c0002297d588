//! The mutation strategies: what each one needs of the buffer, how much
//! weight it has in the selection, and how its parameters are drawn.

use vstd::prelude::*;
use crate::mutation::{interesting_width, width_of, Mutation, ARITH_MAX, MAX_LEN};
use crate::rng::{advance, sample, sample_index, Rng};

verus! {

/// A kind of mutation, before its parameters are drawn.
#[derive(Clone, Copy, Debug, PartialEq, Eq, Structural)]
pub enum Strategy {
    /// Invert one bit of one byte.
    BitFlip,
    /// XOR one byte with a non-zero byte.
    ByteFlip,
    /// Add a small amount to one byte, or subtract it, wrapping around.
    Arithmetic,
    /// Overwrite a window with a boundary value.
    Interesting,
    /// Insert a copy of a block, growing the buffer.
    Duplicate,
    /// Remove a block, shrinking the buffer.
    Delete,
}

/// How many entries of the table of interesting values fit into a buffer of
/// `len` bytes.
pub open spec fn usable_entries(len: usize) -> u64 {
    if len >= 4 {
        15
    } else if len >= 2 {
        10
    } else {
        5
    }
}

/// The largest block that a duplication copies from a buffer of `len` bytes:
/// half the buffer, or less where the limit on the length is near.
pub open spec fn largest_copy(len: usize) -> usize {
    if len / 2 <= MAX_LEN - len {
        len / 2
    } else {
        (MAX_LEN - len) as usize
    }
}

/// The largest block that a deletion removes from a buffer of `len` bytes.
/// It leaves at least two bytes, so that duplication stays possible.
pub open spec fn largest_cut(len: usize) -> usize {
    ((len - 1) / 2) as usize
}

impl Mutation {
    /// The strategy that the mutation is an instance of.
    pub open spec fn kind(self) -> Strategy {
        match self {
            Mutation::BitFlip { .. } => Strategy::BitFlip,
            Mutation::ByteFlip { .. } => Strategy::ByteFlip,
            Mutation::Arithmetic { .. } => Strategy::Arithmetic,
            Mutation::Interesting { .. } => Strategy::Interesting,
            Mutation::Duplicate { .. } => Strategy::Duplicate,
            Mutation::Delete { .. } => Strategy::Delete,
        }
    }
}

impl Strategy {
    /// The number of tickets the strategy holds in the selection table.
    /// A strategy is selected with a probability proportional to it.
    pub open spec fn weight(self) -> u64 {
        match self {
            Strategy::BitFlip => 30,
            Strategy::ByteFlip => 20,
            Strategy::Arithmetic => 20,
            Strategy::Interesting => 10,
            Strategy::Duplicate => 10,
            Strategy::Delete => 10,
        }
    }

    /// Whether the strategy never changes the length of a buffer.
    pub open spec fn length_preserving(self) -> bool {
        !(self is Duplicate) && !(self is Delete)
    }

    /// Whether the strategy always alters exactly one byte.
    pub open spec fn single_byte(self) -> bool {
        self is BitFlip || self is ByteFlip || self is Arithmetic
    }

    /// Whether the strategy can be applied to a buffer of `len` bytes.
    pub open spec fn applicable(self, len: nat) -> bool {
        match self {
            Strategy::Duplicate => 2 <= len < MAX_LEN,
            Strategy::Delete => 3 <= len,
            _ => 1 <= len,
        }
    }

    /// The mutation that the strategy draws for a buffer of `len` bytes from
    /// a generator in state `state`.
    pub open spec fn chosen(self, len: usize, state: u64) -> Mutation {
        let second = advance(state);
        let third = advance(second);
        match self {
            Strategy::BitFlip => Mutation::BitFlip {
                index: sample_index(state, len),
                bit: sample(second, 8) as u8,
            },
            Strategy::ByteFlip => Mutation::ByteFlip {
                index: sample_index(state, len),
                mask: (1 + sample(second, 255)) as u8,
            },
            Strategy::Arithmetic => Mutation::Arithmetic {
                index: sample_index(state, len),
                delta: (1 + sample(second, ARITH_MAX as u64)) as u8,
                subtract: sample(third, 2) == 1,
            },
            Strategy::Interesting => {
                let entry = sample(state, usable_entries(len)) as u8;
                Mutation::Interesting {
                    entry,
                    index: sample_index(second, (len - interesting_width(entry) + 1) as usize),
                    big_endian: sample(third, 2) == 1,
                }
            },
            Strategy::Duplicate => {
                let count = (1 + sample_index(state, largest_copy(len))) as usize;
                Mutation::Duplicate {
                    count,
                    start: sample_index(second, (len - count + 1) as usize),
                    at: sample_index(third, (len + 1) as usize),
                }
            },
            Strategy::Delete => {
                let count = (1 + sample_index(state, largest_cut(len))) as usize;
                Mutation::Delete {
                    count,
                    start: sample_index(second, (len - count + 1) as usize),
                }
            },
        }
    }

    /// The state of the generator after the strategy has drawn its
    /// parameters from state `state`.
    pub open spec fn state_after(self, state: u64) -> u64 {
        match self {
            Strategy::BitFlip | Strategy::ByteFlip | Strategy::Delete => advance(advance(state)),
            _ => advance(advance(advance(state))),
        }
    }

    /// Whatever the generator yields, the mutation that a strategy draws for
    /// a buffer it can be applied to is an instance of the strategy and is
    /// well formed for the buffer: it stays within its bounds.
    pub proof fn chosen_is_well_formed(self, len: usize, state: u64)
        requires
            self.applicable(len as nat),
        ensures
            self.chosen(len, state).kind() == self,
            self.chosen(len, state).well_formed(len as nat),
    {
    }

    /// The strategy's number of tickets in the selection table.
    pub fn tickets(self) -> (weight: u64)
        ensures
            weight == self.weight(),
    {
        match self {
            Strategy::BitFlip => 30,
            Strategy::ByteFlip => 20,
            Strategy::Arithmetic => 20,
            Strategy::Interesting => 10,
            Strategy::Duplicate => 10,
            Strategy::Delete => 10,
        }
    }

    /// Tests whether the strategy can be applied to a buffer of `len` bytes.
    pub fn applies_to(self, len: usize) -> (ok: bool)
        ensures
            ok == self.applicable(len as nat),
    {
        match self {
            Strategy::Duplicate => 2 <= len && len < MAX_LEN,
            Strategy::Delete => 3 <= len,
            _ => 1 <= len,
        }
    }

    /// Draws the strategy's parameters for a buffer of `len` bytes.
    ///
    /// Returns `None`, and draws nothing, exactly when the strategy cannot
    /// be applied to such a buffer. A mutation that is returned is well
    /// formed for every buffer of `len` bytes.
    pub fn draw(self, len: usize, rng: &mut Rng) -> (drawn: Option<Mutation>)
        ensures
            drawn is Some <==> self.applicable(len as nat),
            drawn matches Some(mutation) ==> {
                &&& mutation == self.chosen(len, old(rng)@)
                &&& mutation.well_formed(len as nat)
                &&& final(rng)@ == self.state_after(old(rng)@)
            },
            drawn is None ==> final(rng)@ == old(rng)@,
    {
        if !self.applies_to(len) {
            return None;
        }
        let mutation = match self {
            Strategy::BitFlip => {
                let index: usize = rng.index(len);
                let bit: u8 = rng.below(8) as u8;
                Mutation::BitFlip { index, bit }
            },
            Strategy::ByteFlip => {
                let index: usize = rng.index(len);
                let mask: u8 = (1 + rng.below(255)) as u8;
                Mutation::ByteFlip { index, mask }
            },
            Strategy::Arithmetic => {
                let index: usize = rng.index(len);
                let delta: u8 = (1 + rng.below(ARITH_MAX as u64)) as u8;
                let subtract: bool = rng.below(2) == 1;
                Mutation::Arithmetic { index, delta, subtract }
            },
            Strategy::Interesting => {
                let usable: u64 = if len >= 4 {
                    15
                } else if len >= 2 {
                    10
                } else {
                    5
                };
                let entry: u8 = rng.below(usable) as u8;
                let index: usize = rng.index(len - width_of(entry) + 1);
                let big_endian: bool = rng.below(2) == 1;
                Mutation::Interesting { index, entry, big_endian }
            },
            Strategy::Duplicate => {
                let largest: usize = if len / 2 <= MAX_LEN - len {
                    len / 2
                } else {
                    MAX_LEN - len
                };
                let count: usize = 1 + rng.index(largest);
                let start: usize = rng.index(len - count + 1);
                let at: usize = rng.index(len + 1);
                Mutation::Duplicate { start, count, at }
            },
            Strategy::Delete => {
                let count: usize = 1 + rng.index((len - 1) / 2);
                let start: usize = rng.index(len - count + 1);
                Mutation::Delete { start, count }
            },
        };
        Some(mutation)
    }
}

} // verus!
