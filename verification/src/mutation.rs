//! Single edits of a byte buffer, fully parameterized.
//!
//! A [`Mutation`] names one transformation together with every parameter it
//! needs, so applying it is a pure function of the buffer. Which mutation a
//! round applies is decided elsewhere, from the pseudo-random stream.

use vstd::prelude::*;

verus! {

/// No duplication grows a buffer beyond this many bytes.
pub const MAX_LEN: usize = 0x100_0000;

/// The largest amount that an arithmetic mutation adds or subtracts.
pub const ARITH_MAX: u8 = 35;

/// The number of entries in the table of interesting values.
pub const INTERESTING_ENTRIES: u8 = 15;

/// The width in bytes of an entry of the table of interesting values.
///
/// Entries are ordered by width, so the entries that fit a window of a given
/// size form a prefix of the table.
pub open spec fn interesting_width(entry: u8) -> usize {
    if entry < 5 {
        1
    } else if entry < 10 {
        2
    } else {
        4
    }
}

/// The value of an entry of the table of interesting values: for each width
/// zero, one, minus one, the largest signed and the smallest signed value.
pub open spec fn interesting_value(entry: u8) -> u32 {
    match entry {
        0 => 0x00,
        1 => 0x01,
        2 => 0xFF,
        3 => 0x7F,
        4 => 0x80,
        5 => 0x0000,
        6 => 0x0001,
        7 => 0xFFFF,
        8 => 0x7FFF,
        9 => 0x8000,
        10 => 0x0000_0000,
        11 => 0x0000_0001,
        12 => 0xFFFF_FFFF,
        13 => 0x7FFF_FFFF,
        _ => 0x8000_0000,
    }
}

/// How far an entry's value is shifted right to bring the byte for offset
/// `k` of the window into the low eight bits.
pub open spec fn interesting_shift(entry: u8, big_endian: bool, k: usize) -> u32 {
    if big_endian {
        (8 * (interesting_width(entry) - 1 - k)) as u32
    } else {
        (8 * k) as u32
    }
}

/// The byte that an entry puts at offset `k` of its window.
pub open spec fn interesting_byte(entry: u8, big_endian: bool, k: usize) -> u8 {
    ((interesting_value(entry) >> interesting_shift(entry, big_endian, k)) & 0xFF) as u8
}

/// The width in bytes of entry `entry` of the table of interesting values.
pub fn width_of(entry: u8) -> (width: usize)
    ensures
        width == interesting_width(entry),
{
    if entry < 5 {
        1
    } else if entry < 10 {
        2
    } else {
        4
    }
}

/// The value of entry `entry` of the table of interesting values.
pub fn value_of(entry: u8) -> (value: u32)
    ensures
        value == interesting_value(entry),
{
    match entry {
        0 => 0x00,
        1 => 0x01,
        2 => 0xFF,
        3 => 0x7F,
        4 => 0x80,
        5 => 0x0000,
        6 => 0x0001,
        7 => 0xFFFF,
        8 => 0x7FFF,
        9 => 0x8000,
        10 => 0x0000_0000,
        11 => 0x0000_0001,
        12 => 0xFFFF_FFFF,
        13 => 0x7FFF_FFFF,
        _ => 0x8000_0000,
    }
}

/// Whether `a` and `b` have the same length and differ at `index` and
/// nowhere else.
pub open spec fn differ_only_at(a: Seq<u8>, b: Seq<u8>, index: int) -> bool {
    &&& a.len() == b.len()
    &&& 0 <= index < a.len()
    &&& a[index] != b[index]
    &&& forall|i: int| 0 <= i < a.len() && i != index ==> a[i] == b[i]
}

/// One edit of a byte buffer.
#[derive(Clone, Copy, Debug, PartialEq, Eq, Structural)]
pub enum Mutation {
    /// Invert bit `bit` of the byte at `index`.
    BitFlip { index: usize, bit: u8 },
    /// XOR the byte at `index` with the non-zero `mask`.
    ByteFlip { index: usize, mask: u8 },
    /// Add `delta` to the byte at `index`, or subtract it, wrapping around.
    Arithmetic { index: usize, delta: u8, subtract: bool },
    /// Overwrite the window that starts at `index` with entry `entry` of the
    /// table of interesting values, in the given byte order.
    Interesting { index: usize, entry: u8, big_endian: bool },
    /// Insert a copy of the `count` bytes that start at `start` before
    /// position `at`.
    Duplicate { start: usize, count: usize, at: usize },
    /// Remove the `count` bytes that start at `start`.
    Delete { start: usize, count: usize },
}

impl Mutation {
    /// Whether the edit is in bounds for a buffer of `len` bytes and its
    /// parameters are in range.
    pub open spec fn well_formed(self, len: nat) -> bool {
        match self {
            Mutation::BitFlip { index, bit } => index < len && bit < 8,
            Mutation::ByteFlip { index, mask } => index < len && mask != 0,
            Mutation::Arithmetic { index, delta, .. } => index < len && 1 <= delta <= ARITH_MAX,
            Mutation::Interesting { index, entry, .. } => entry < INTERESTING_ENTRIES && index
                + interesting_width(entry) <= len,
            Mutation::Duplicate { start, count, at } => 1 <= count && start + count <= len && at
                <= len && len + count <= MAX_LEN,
            Mutation::Delete { start, count } => 1 <= count && start + count <= len,
        }
    }

    /// The buffer that the edit makes of `buf`.
    pub open spec fn applied(self, buf: Seq<u8>) -> Seq<u8> {
        match self {
            Mutation::BitFlip { index, bit } => buf.update(
                index as int,
                buf[index as int] ^ (1u8 << bit),
            ),
            Mutation::ByteFlip { index, mask } => buf.update(
                index as int,
                buf[index as int] ^ mask,
            ),
            Mutation::Arithmetic { index, delta, subtract } => buf.update(
                index as int,
                if subtract {
                    buf[index as int].wrapping_sub(delta)
                } else {
                    buf[index as int].wrapping_add(delta)
                },
            ),
            Mutation::Interesting { index, entry, big_endian } => Seq::new(
                buf.len(),
                |i: int|
                    if index <= i < index + interesting_width(entry) {
                        interesting_byte(entry, big_endian, (i - index) as usize)
                    } else {
                        buf[i]
                    },
            ),
            Mutation::Duplicate { start, count, at } => buf.subrange(0, at as int) + buf.subrange(
                start as int,
                start + count,
            ) + buf.subrange(at as int, buf.len() as int),
            Mutation::Delete { start, count } => buf.subrange(0, start as int) + buf.subrange(
                start + count,
                buf.len() as int,
            ),
        }
    }

    /// Tests whether the edit is well formed for a buffer of `len` bytes.
    pub fn fits(&self, len: usize) -> (ok: bool)
        ensures
            ok == self.well_formed(len as nat),
    {
        match *self {
            Mutation::BitFlip { index, bit } => index < len && bit < 8,
            Mutation::ByteFlip { index, mask } => index < len && mask != 0,
            Mutation::Arithmetic { index, delta, .. } => index < len && 1 <= delta && delta
                <= ARITH_MAX,
            Mutation::Interesting { index, entry, .. } => {
                let width: usize = width_of(entry);
                entry < INTERESTING_ENTRIES && width <= len && index <= len - width
            },
            Mutation::Duplicate { start, count, at } => 1 <= count && count <= len && start <= len
                - count && at <= len && len <= MAX_LEN && count <= MAX_LEN - len,
            Mutation::Delete { start, count } => 1 <= count && count <= len && start <= len
                - count,
        }
    }

    /// Applies the edit to `buf` if it is well formed for it, and says
    /// whether it was. An edit that is not well formed leaves `buf` as it is.
    pub fn apply(&self, buf: &mut Vec<u8>) -> (done: bool)
        ensures
            done == self.well_formed(old(buf)@.len()),
            done ==> final(buf)@ == self.applied(old(buf)@),
            !done ==> final(buf)@ == old(buf)@,
    {
        if !self.fits(buf.len()) {
            return false;
        }
        match *self {
            Mutation::BitFlip { index, bit } => {
                let byte: u8 = buf[index];
                buf.set(index, byte ^ (1u8 << bit));
            },
            Mutation::ByteFlip { index, mask } => {
                let byte: u8 = buf[index];
                buf.set(index, byte ^ mask);
            },
            Mutation::Arithmetic { index, delta, subtract } => {
                let byte: u8 = buf[index];
                if subtract {
                    buf.set(index, byte.wrapping_sub(delta));
                } else {
                    buf.set(index, byte.wrapping_add(delta));
                }
            },
            Mutation::Interesting { index, entry, big_endian } => {
                overwrite(buf, index, entry, big_endian);
            },
            Mutation::Duplicate { start, count, at } => {
                insert_copy(buf, start, count, at);
            },
            Mutation::Delete { start, count } => {
                remove_block(buf, start, count);
            },
        }
        true
    }

    /// The length that the edit gives a buffer of `len` bytes.
    pub open spec fn length_after(self, len: nat) -> nat {
        match self {
            Mutation::Duplicate { count, .. } => len + count as nat,
            Mutation::Delete { count, .. } => (len - count) as nat,
            _ => len,
        }
    }

    /// A well-formed edit changes the length of the buffer only where it is
    /// a duplication, which adds the bytes it copies, or a deletion, which
    /// takes away the bytes it removes.
    pub proof fn applied_has_length(self, buf: Seq<u8>)
        requires
            self.well_formed(buf.len()),
        ensures
            self.applied(buf).len() == self.length_after(buf.len()),
    {
    }

    /// A well-formed bit flip, byte flip or arithmetic edit changes exactly
    /// one byte of the buffer.
    pub proof fn single_byte_edit_changes_one_byte(self, buf: Seq<u8>)
        requires
            self.well_formed(buf.len()),
            self is BitFlip || self is ByteFlip || self is Arithmetic,
        ensures
            exists|index: int| differ_only_at(buf, self.applied(buf), index),
    {
        match self {
            Mutation::BitFlip { index, bit } => {
                let byte = buf[index as int];
                assert(byte ^ (1u8 << bit) != byte) by (bit_vector)
                    requires
                        bit < 8,
                ;
                assert(differ_only_at(buf, self.applied(buf), index as int));
            },
            Mutation::ByteFlip { index, mask } => {
                let byte = buf[index as int];
                assert(byte ^ mask != byte) by (bit_vector)
                    requires
                        mask != 0,
                ;
                assert(differ_only_at(buf, self.applied(buf), index as int));
            },
            Mutation::Arithmetic { index, .. } => {
                assert(differ_only_at(buf, self.applied(buf), index as int));
            },
            _ => {},
        }
    }
}

/// The byte that entry `entry` puts at offset `k` of its window.
fn byte_of(entry: u8, big_endian: bool, k: usize) -> (byte: u8)
    requires
        k < interesting_width(entry),
    ensures
        byte == interesting_byte(entry, big_endian, k),
{
    let shift: u32 = if big_endian {
        (8 * (width_of(entry) - 1 - k)) as u32
    } else {
        (8 * k) as u32
    };
    let value: u32 = value_of(entry);
    assert((value >> shift) & 0xFF < 0x100) by (bit_vector);
    ((value >> shift) & 0xFF) as u8
}

/// Writes entry `entry` of the table of interesting values over the window
/// of `buf` that starts at `index`.
fn overwrite(buf: &mut Vec<u8>, index: usize, entry: u8, big_endian: bool)
    requires
        index + interesting_width(entry) <= old(buf)@.len(),
    ensures
        final(buf)@ == (Mutation::Interesting { index, entry, big_endian }).applied(old(buf)@),
{
    let len: usize = buf.len();
    let width: usize = width_of(entry);
    let mut k: usize = 0;
    while k < width
        invariant
            k <= width,
            width == interesting_width(entry),
            index + width <= len,
            len == old(buf)@.len(),
            buf@.len() == len,
            forall|i: int|
                0 <= i < buf@.len() ==> buf@[i] == if index <= i < index + k {
                    interesting_byte(entry, big_endian, (i - index) as usize)
                } else {
                    old(buf)@[i]
                },
        decreases width - k,
    {
        let byte: u8 = byte_of(entry, big_endian, k);
        buf.set(index + k, byte);
        k += 1;
    }
}

/// Inserts a copy of the `count` bytes of `buf` that start at `start`
/// before position `at`, in place: the buffer grows by `count` bytes, the
/// bytes from `at` on move up by `count`, and the copy fills the gap.
fn insert_copy(buf: &mut Vec<u8>, start: usize, count: usize, at: usize)
    requires
        start + count <= old(buf)@.len(),
        at <= old(buf)@.len(),
        old(buf)@.len() + count <= usize::MAX,
    ensures
        final(buf)@ == (Mutation::Duplicate { start, count, at }).applied(old(buf)@),
{
    let len: usize = buf.len();
    let mut added: usize = 0;
    while added < count
        invariant
            added <= count,
            len == old(buf)@.len(),
            len + count <= usize::MAX,
            buf@.len() == len + added,
            forall|j: int| 0 <= j < len ==> buf@[j] == old(buf)@[j],
        decreases count - added,
    {
        buf.push(0);
        added += 1;
    }
    let mut i: usize = len;
    while i > at
        invariant
            at <= i <= len,
            len == old(buf)@.len(),
            len + count <= usize::MAX,
            buf@.len() == len + count,
            forall|j: int| 0 <= j < i ==> buf@[j] == old(buf)@[j],
            forall|j: int| i + count <= j < len + count ==> buf@[j] == old(buf)@[j - count],
        decreases i,
    {
        i -= 1;
        let byte: u8 = buf[i];
        buf.set(i + count, byte);
    }
    let mut k: usize = 0;
    while k < count
        invariant
            k <= count,
            at <= len,
            start + count <= len,
            len == old(buf)@.len(),
            len + count <= usize::MAX,
            buf@.len() == len + count,
            forall|j: int| 0 <= j < at ==> buf@[j] == old(buf)@[j],
            forall|j: int| at + count <= j < len + count ==> buf@[j] == old(buf)@[j - count],
            forall|j: int| at <= j < at + k ==> buf@[j] == old(buf)@[start + (j - at)],
        decreases count - k,
    {
        let from: usize = start + k;
        let byte: u8 = if from < at {
            buf[from]
        } else {
            buf[from + count]
        };
        buf.set(at + k, byte);
        k += 1;
    }
}

/// Removes the `count` bytes of `buf` that start at `start`.
fn remove_block(buf: &mut Vec<u8>, start: usize, count: usize)
    requires
        start + count <= old(buf)@.len(),
    ensures
        final(buf)@ == (Mutation::Delete { start, count }).applied(old(buf)@),
{
    let len: usize = buf.len();
    let kept: usize = len - count;
    let mut i: usize = start;
    while i < kept
        invariant
            start <= i <= kept,
            kept == len - count,
            start + count <= len,
            len == old(buf)@.len(),
            buf@.len() == len,
            forall|j: int| 0 <= j < i ==> buf@[j] == if j < start {
                old(buf)@[j]
            } else {
                old(buf)@[j + count]
            },
            forall|j: int| i <= j < len ==> buf@[j] == old(buf)@[j],
        decreases kept - i,
    {
        let byte: u8 = buf[i + count];
        buf.set(i, byte);
        i += 1;
    }
    buf.truncate(kept);
}

} // verus!
