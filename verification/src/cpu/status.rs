//! The processor status register `P`.

use vstd::prelude::*;

verus! {

/// The status register: one bit for each flag.
///
/// | bit | flag |
/// |-----|------|
/// | 0   | carry |
/// | 1   | zero |
/// | 2   | interrupt disable |
/// | 3   | decimal mode (kept, but arithmetic stays binary) |
/// | 4   | break: set only in a copy that is pushed |
/// | 5   | unused: reads as 1 |
/// | 6   | overflow |
/// | 7   | negative |
#[derive(Clone, Copy, Debug)]
pub struct ProcessorStatus {
    bits: u8,
}

impl View for ProcessorStatus {
    type V = u8;

    closed spec fn view(&self) -> u8 {
        self.bits
    }
}

/// Whether one of the bits of `mask` is set in `p`.
pub open spec fn flag_set(p: u8, mask: u8) -> bool {
    p & mask != 0
}

/// `p` with the bits of `mask` set where `on` holds, cleared where not.
pub open spec fn with_flag(p: u8, mask: u8, on: bool) -> u8 {
    if on {
        p | mask
    } else {
        p & !mask
    }
}

/// Setting or clearing the bits of `mask` does that, and leaves alone every
/// bit outside `mask`.
pub proof fn lemma_with_flag(p: u8, mask: u8, other: u8)
    by (bit_vector)
    ensures
        (p | mask) & mask == mask,
        (p & !mask) & mask == 0,
        other & mask == 0 ==> (p | mask) & other == p & other,
        other & mask == 0 ==> (p & !mask) & other == p & other,
{
}

/// The carry bit of a status byte is 0 or 1.
pub proof fn lemma_carry_bit(p: u8)
    by (bit_vector)
    ensures
        p & 0b0000_0001 == 0 || p & 0b0000_0001 == 1,
{
}

impl ProcessorStatus {
    /// C: the carry out of bit 7, or the bit that a shift pushed out.
    pub const CARRY: u8 = 0b0000_0001;

    /// Z: the last result was zero.
    pub const ZERO: u8 = 0b0000_0010;

    /// I: interrupts are held back.
    pub const INTERRUPT_DISABLE: u8 = 0b0000_0100;

    /// D: decimal mode.
    pub const DECIMAL: u8 = 0b0000_1000;

    /// B: the copy of the register was pushed by an instruction.
    pub const BREAK: u8 = 0b0001_0000;

    /// The unused bit.
    pub const BREAK_2: u8 = 0b0010_0000;

    /// V: the last addition or subtraction left the range of signed bytes.
    pub const OVERFLOW: u8 = 0b0100_0000;

    /// N: bit 7 of the last result.
    pub const NEGATIVE: u8 = 0b1000_0000;

    /// The register with no flag set.
    pub fn empty() -> (status: Self)
        ensures
            status@ == 0,
    {
        ProcessorStatus { bits: 0 }
    }

    /// The register that holds exactly `bits`.
    pub fn from_bits_truncate(bits: u8) -> (status: Self)
        ensures
            status@ == bits,
    {
        ProcessorStatus { bits }
    }

    /// The register as a byte.
    pub fn bits(&self) -> (bits: u8)
        ensures
            bits == self@,
    {
        self.bits
    }

    /// Whether no flag is set.
    pub fn is_empty(&self) -> (empty: bool)
        ensures
            empty == (self@ == 0),
    {
        self.bits == 0
    }

    /// Whether every bit of `flags` is set.
    pub fn contains(&self, flags: u8) -> (all: bool)
        ensures
            all == (self@ & flags == flags),
    {
        self.bits & flags == flags
    }

    /// Whether some bit of `flags` is set.
    pub fn intersects(&self, flags: u8) -> (any: bool)
        ensures
            any == flag_set(self@, flags),
    {
        self.bits & flags != 0
    }

    /// Sets the bits of `flags`.
    pub fn insert(&mut self, flags: u8)
        ensures
            final(self)@ == with_flag(old(self)@, flags, true),
    {
        self.bits = self.bits | flags;
    }

    /// Clears the bits of `flags`.
    pub fn remove(&mut self, flags: u8)
        ensures
            final(self)@ == with_flag(old(self)@, flags, false),
    {
        self.bits = self.bits & !flags;
    }

    /// Sets the bits of `flags` if `value` holds, and clears them if not.
    pub fn set(&mut self, flags: u8, value: bool)
        ensures
            final(self)@ == with_flag(old(self)@, flags, value),
    {
        if value {
            self.insert(flags);
        } else {
            self.remove(flags);
        }
    }
}

} // verus!
