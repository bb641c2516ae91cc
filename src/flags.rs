//! The processor status register as a set of flag bits.

use vstd::prelude::*;

verus! {

/// True when every bit of `mask` is set in `bits`.
pub open spec fn has_bits(bits: u8, mask: u8) -> bool {
    bits & mask == mask
}

/// `bits` with the bits of `mask` set (`on`) or cleared (`!on`).
pub open spec fn with_bits(bits: u8, mask: u8, on: bool) -> u8 {
    if on {
        bits | mask
    } else {
        bits & !mask
    }
}

/// A mask of exactly one bit.
pub open spec fn is_flag(f: u8) -> bool {
    f == 0x01 || f == 0x02 || f == 0x04 || f == 0x08 || f == 0x10 || f == 0x20 || f == 0x40 || f == 0x80
}

/// Setting or clearing one flag leaves every other flag as it was.
pub broadcast proof fn lemma_with_bits(s: u8, m: u8, on: bool, f: u8)
    requires
        is_flag(m),
        is_flag(f),
    ensures
        #[trigger] has_bits(with_bits(s, m, on), f) == if m == f {
            on
        } else {
            has_bits(s, f)
        },
{
    if on {
        assert((s | m) & f == f <==> (m == f || s & f == f)) by (bit_vector)
            requires
                is_flag(m),
                is_flag(f),
        ;
    } else {
        assert((s & !m) & f == f <==> (m != f && s & f == f)) by (bit_vector)
            requires
                is_flag(m),
                is_flag(f),
        ;
    }
}

/// Adding a flag leaves every other flag as it was.
pub broadcast proof fn lemma_or_flag(s: u8, m: u8, f: u8)
    requires
        is_flag(m),
        is_flag(f),
    ensures
        #[trigger] has_bits(s | m, f) == (m == f || has_bits(s, f)),
{
    assert((s | m) & f == f <==> (m == f || s & f == f)) by (bit_vector)
        requires
            is_flag(m),
            is_flag(f),
    ;
}

/// Removing a flag leaves every other flag as it was.
pub broadcast proof fn lemma_clear_flag(s: u8, m: u8, f: u8)
    requires
        is_flag(m),
        is_flag(f),
    ensures
        #[trigger] has_bits(s & !m, f) == (m != f && has_bits(s, f)),
{
    assert((s & !m) & f == f <==> (m != f && s & f == f)) by (bit_vector)
        requires
            is_flag(m),
            is_flag(f),
    ;
}

pub broadcast group group_flag_lemmas {
    lemma_with_bits,
    lemma_or_flag,
    lemma_clear_flag,
}

/// The status register `SR`: one bit per flag.
#[derive(Clone, Copy, PartialEq, Eq, Debug, Structural)]
pub struct StatusFlags {
    pub bits: u8,
}

impl StatusFlags {
    /// Carry.
    pub const C: u8 = 0b0000_0001;
    /// Zero.
    pub const Z: u8 = 0b0000_0010;
    /// Interrupt disable.
    pub const I: u8 = 0b0000_0100;
    /// Decimal mode.
    pub const D: u8 = 0b0000_1000;
    /// Break.
    pub const B: u8 = 0b0001_0000;
    /// Unused bit, which always reads as 1.
    pub const RESERVED: u8 = 0b0010_0000;
    /// Overflow.
    pub const V: u8 = 0b0100_0000;
    /// Negative.
    pub const N: u8 = 0b1000_0000;

    /// No flag set.
    pub fn empty() -> (r: StatusFlags)
        ensures
            r.bits == 0,
    {
        StatusFlags { bits: 0 }
    }

    /// The flags whose bits are set in `bits`; every bit of a byte names a flag.
    pub fn from_bits_truncate(bits: u8) -> (r: StatusFlags)
        ensures
            r.bits == bits,
    {
        StatusFlags { bits }
    }

    pub fn bits(&self) -> (r: u8)
        ensures
            r == self.bits,
    {
        self.bits
    }

    /// Whether every flag of `mask` is set.
    pub fn contains(&self, mask: u8) -> (r: bool)
        ensures
            r == has_bits(self.bits, mask),
    {
        self.bits & mask == mask
    }

    /// Sets the flags of `mask` when `on`, clears them otherwise.
    pub fn set(&mut self, mask: u8, on: bool)
        ensures
            final(self).bits == with_bits(old(self).bits, mask, on),
    {
        if on {
            self.bits = self.bits | mask;
        } else {
            self.bits = self.bits & !mask;
        }
    }

    pub fn insert(&mut self, mask: u8)
        ensures
            final(self).bits == old(self).bits | mask,
    {
        self.bits = self.bits | mask;
    }

    pub fn remove(&mut self, mask: u8)
        ensures
            final(self).bits == old(self).bits & !mask,
    {
        self.bits = self.bits & !mask;
    }

    /// The flags set in `self` or in `mask`.
    pub fn union(&self, mask: u8) -> (r: StatusFlags)
        ensures
            r.bits == self.bits | mask,
    {
        StatusFlags { bits: self.bits | mask }
    }
}

impl Default for StatusFlags {
    /// Only the reserved bit, which always reads as 1.
    fn default() -> (r: StatusFlags)
        ensures
            r.bits == StatusFlags::RESERVED,
    {
        StatusFlags { bits: StatusFlags::RESERVED }
    }
}

} // verus!
