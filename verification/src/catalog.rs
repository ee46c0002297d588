//! Which strategies a mutator may use, and how one of them is selected.
//!
//! Selection is a lottery. Every enabled strategy holds as many tickets as
//! its weight says, the tickets are numbered from zero in the order in which
//! the strategies are declared, and a pseudo-random word picks one ticket.
//! Where the winner cannot be applied to the buffer at hand, a bit flip
//! takes its place: it needs nothing but a byte to work on.

use vstd::prelude::*;
use crate::strategy::Strategy;

verus! {

/// A set of enabled strategies.
#[derive(Clone, Copy, Debug, PartialEq, Eq, Structural)]
pub struct Catalog {
    pub bit_flip: bool,
    pub byte_flip: bool,
    pub arithmetic: bool,
    pub interesting: bool,
    pub duplicate: bool,
    pub delete: bool,
}

impl Catalog {
    /// Whether `strategy` is enabled.
    pub open spec fn enables(self, strategy: Strategy) -> bool {
        match strategy {
            Strategy::BitFlip => self.bit_flip,
            Strategy::ByteFlip => self.byte_flip,
            Strategy::Arithmetic => self.arithmetic,
            Strategy::Interesting => self.interesting,
            Strategy::Duplicate => self.duplicate,
            Strategy::Delete => self.delete,
        }
    }

    /// The number of tickets that `strategy` holds: its weight if it is
    /// enabled, none otherwise.
    pub open spec fn share(self, strategy: Strategy) -> nat {
        if self.enables(strategy) {
            strategy.weight() as nat
        } else {
            0
        }
    }

    /// The number of the first ticket of `strategy`: the tickets held by the
    /// strategies that are declared before it.
    pub open spec fn first_ticket(self, strategy: Strategy) -> nat {
        let a = self.share(Strategy::BitFlip);
        let b = self.share(Strategy::ByteFlip);
        let c = self.share(Strategy::Arithmetic);
        let d = self.share(Strategy::Interesting);
        let e = self.share(Strategy::Duplicate);
        match strategy {
            Strategy::BitFlip => 0,
            Strategy::ByteFlip => a,
            Strategy::Arithmetic => a + b,
            Strategy::Interesting => a + b + c,
            Strategy::Duplicate => a + b + c + d,
            Strategy::Delete => a + b + c + d + e,
        }
    }

    /// The number of tickets in the lottery.
    pub open spec fn total(self) -> nat {
        self.first_ticket(Strategy::Delete) + self.share(Strategy::Delete)
    }

    /// The strategy that holds ticket `ticket`. Where there is no such
    /// ticket, the answer is a bit flip.
    pub open spec fn holder(self, ticket: nat) -> Strategy {
        if ticket < self.first_ticket(Strategy::ByteFlip) {
            Strategy::BitFlip
        } else if ticket < self.first_ticket(Strategy::Arithmetic) {
            Strategy::ByteFlip
        } else if ticket < self.first_ticket(Strategy::Interesting) {
            Strategy::Arithmetic
        } else if ticket < self.first_ticket(Strategy::Duplicate) {
            Strategy::Interesting
        } else if ticket < self.first_ticket(Strategy::Delete) {
            Strategy::Duplicate
        } else if ticket < self.total() {
            Strategy::Delete
        } else {
            Strategy::BitFlip
        }
    }

    /// The strategy that the word `word` selects for a buffer of `len`
    /// bytes: the holder of ticket `word` modulo the number of tickets if it
    /// can be applied to such a buffer, a bit flip otherwise.
    pub open spec fn selected(self, len: nat, word: u64) -> Strategy {
        let winner = if self.total() == 0 {
            Strategy::BitFlip
        } else {
            self.holder(word as nat % self.total())
        };
        if winner.applicable(len) {
            winner
        } else {
            Strategy::BitFlip
        }
    }

    /// Whether no enabled strategy changes the length of a buffer.
    pub open spec fn length_preserving(self) -> bool {
        !self.duplicate && !self.delete
    }

    /// Whether every enabled strategy alters exactly one byte.
    pub open spec fn single_byte(self) -> bool {
        !self.interesting && !self.duplicate && !self.delete
    }

    /// The catalog of all strategies, for use in contracts.
    pub open spec fn spec_full() -> Catalog {
        Catalog {
            bit_flip: true,
            byte_flip: true,
            arithmetic: true,
            interesting: true,
            duplicate: true,
            delete: true,
        }
    }

    /// The catalog of all strategies.
    #[verifier::when_used_as_spec(spec_full)]
    pub fn full() -> (catalog: Catalog)
        ensures
            catalog == Catalog::spec_full(),
            forall|strategy: Strategy| #[trigger] catalog.enables(strategy),
    {
        Catalog {
            bit_flip: true,
            byte_flip: true,
            arithmetic: true,
            interesting: true,
            duplicate: true,
            delete: true,
        }
    }

    /// The catalog with no strategy enabled.
    pub fn none() -> (catalog: Catalog)
        ensures
            forall|strategy: Strategy| !#[trigger] catalog.enables(strategy),
    {
        Catalog {
            bit_flip: false,
            byte_flip: false,
            arithmetic: false,
            interesting: false,
            duplicate: false,
            delete: false,
        }
    }

    /// The catalog of the strategies that keep the length of the buffer: bit
    /// flip, byte flip, arithmetic and interesting values.
    pub fn fixed_length() -> (catalog: Catalog)
        ensures
            forall|strategy: Strategy|
                #[trigger] catalog.enables(strategy) == strategy.length_preserving(),
    {
        Catalog {
            bit_flip: true,
            byte_flip: true,
            arithmetic: true,
            interesting: true,
            duplicate: false,
            delete: false,
        }
    }

    /// The catalog of the strategies that alter exactly one byte: bit flip,
    /// byte flip and arithmetic.
    pub fn one_byte() -> (catalog: Catalog)
        ensures
            forall|strategy: Strategy|
                #[trigger] catalog.enables(strategy) == strategy.single_byte(),
    {
        Catalog {
            bit_flip: true,
            byte_flip: true,
            arithmetic: true,
            interesting: false,
            duplicate: false,
            delete: false,
        }
    }

    /// This catalog with `strategy` enabled.
    pub fn with(self, strategy: Strategy) -> (catalog: Catalog)
        ensures
            forall|other: Strategy|
                #[trigger] catalog.enables(other) == (other == strategy || self.enables(other)),
    {
        let mut catalog = self;
        match strategy {
            Strategy::BitFlip => catalog.bit_flip = true,
            Strategy::ByteFlip => catalog.byte_flip = true,
            Strategy::Arithmetic => catalog.arithmetic = true,
            Strategy::Interesting => catalog.interesting = true,
            Strategy::Duplicate => catalog.duplicate = true,
            Strategy::Delete => catalog.delete = true,
        }
        catalog
    }

    /// This catalog with `strategy` disabled.
    pub fn without(self, strategy: Strategy) -> (catalog: Catalog)
        ensures
            forall|other: Strategy|
                #[trigger] catalog.enables(other) == (other != strategy && self.enables(other)),
    {
        let mut catalog = self;
        match strategy {
            Strategy::BitFlip => catalog.bit_flip = false,
            Strategy::ByteFlip => catalog.byte_flip = false,
            Strategy::Arithmetic => catalog.arithmetic = false,
            Strategy::Interesting => catalog.interesting = false,
            Strategy::Duplicate => catalog.duplicate = false,
            Strategy::Delete => catalog.delete = false,
        }
        catalog
    }

    /// Tests whether `strategy` is enabled.
    pub fn contains(&self, strategy: Strategy) -> (enabled: bool)
        ensures
            enabled == self.enables(strategy),
    {
        match strategy {
            Strategy::BitFlip => self.bit_flip,
            Strategy::ByteFlip => self.byte_flip,
            Strategy::Arithmetic => self.arithmetic,
            Strategy::Interesting => self.interesting,
            Strategy::Duplicate => self.duplicate,
            Strategy::Delete => self.delete,
        }
    }

    /// The number of tickets that `strategy` holds.
    pub fn tickets_of(&self, strategy: Strategy) -> (tickets: u64)
        ensures
            tickets == self.share(strategy),
    {
        if self.contains(strategy) {
            strategy.tickets()
        } else {
            0
        }
    }

    /// The number of tickets in the lottery.
    pub fn tickets(&self) -> (tickets: u64)
        ensures
            tickets == self.total(),
    {
        self.tickets_of(Strategy::BitFlip) + self.tickets_of(Strategy::ByteFlip)
            + self.tickets_of(Strategy::Arithmetic) + self.tickets_of(Strategy::Interesting)
            + self.tickets_of(Strategy::Duplicate) + self.tickets_of(Strategy::Delete)
    }

    /// The strategy that holds ticket `ticket`, or a bit flip where there is
    /// no such ticket.
    pub fn holder_of(&self, ticket: u64) -> (strategy: Strategy)
        ensures
            strategy == self.holder(ticket as nat),
    {
        let mut next: u64 = self.tickets_of(Strategy::BitFlip);
        if ticket < next {
            return Strategy::BitFlip;
        }
        next = next + self.tickets_of(Strategy::ByteFlip);
        if ticket < next {
            return Strategy::ByteFlip;
        }
        next = next + self.tickets_of(Strategy::Arithmetic);
        if ticket < next {
            return Strategy::Arithmetic;
        }
        next = next + self.tickets_of(Strategy::Interesting);
        if ticket < next {
            return Strategy::Interesting;
        }
        next = next + self.tickets_of(Strategy::Duplicate);
        if ticket < next {
            return Strategy::Duplicate;
        }
        next = next + self.tickets_of(Strategy::Delete);
        if ticket < next {
            return Strategy::Delete;
        }
        Strategy::BitFlip
    }

    /// Selects the strategy for a buffer of `len` bytes from the word
    /// `word`.
    pub fn select(&self, len: usize, word: u64) -> (strategy: Strategy)
        ensures
            strategy == self.selected(len as nat, word),
            len > 0 ==> strategy.applicable(len as nat),
            strategy == Strategy::BitFlip || self.enables(strategy),
    {
        let total: u64 = self.tickets();
        let winner: Strategy = if total == 0 {
            Strategy::BitFlip
        } else {
            self.holder_of(word % total)
        };
        if winner.applies_to(len) {
            winner
        } else {
            Strategy::BitFlip
        }
    }

    /// Every ticket below the total has exactly one holder: the enabled
    /// strategy whose range of tickets it falls in. So each enabled strategy
    /// holds as many tickets as its weight says, and a disabled one none.
    pub proof fn ticket_ranges(self, ticket: nat, strategy: Strategy)
        requires
            ticket < self.total(),
        ensures
            self.holder(ticket) == strategy <==> self.enables(strategy) && self.first_ticket(
                strategy,
            ) <= ticket < self.first_ticket(strategy) + strategy.weight(),
    {
    }
}

} // verus!
