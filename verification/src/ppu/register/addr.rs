//! The PPU's address register: a 14-bit address that the CPU writes one
//! byte at a time, high byte first.

use super::constans::PPU_MEM_END;
use crate::bytes::{high_byte, lemma_split_word, low_byte, make_word, word};
use vstd::prelude::*;

verus! {

/// The address register.
#[derive(Debug, PartialEq)]
pub struct AddrRegister {
    /// The address, high byte first.
    pub value: (u8, u8),
    /// Whether the next byte written is the high byte.
    pub hi_ptr: bool,
}

/// `addr` brought into the PPU's address space, which is seen again and
/// again above its end.
pub open spec fn mirrored(addr: u16) -> u16 {
    addr % 0x4000
}

/// Masking an address with the last PPU address brings it into the PPU's
/// address space.
pub proof fn lemma_mirror_down(addr: u16)
    by (bit_vector)
    ensures
        addr & 0x3FFF == addr % 0x4000,
{
}

impl AddrRegister {
    /// The address that the register holds.
    pub open spec fn address(&self) -> u16 {
        word(self.value.1, self.value.0)
    }

    /// The register with address 0, waiting for a high byte.
    pub fn new() -> (register: Self)
        ensures
            register.value == (0u8, 0u8),
            register.hi_ptr,
    {
        AddrRegister { value: (0, 0), hi_ptr: true }
    }

    /// Makes `data` the address. The latch stays as it is.
    pub fn set(&mut self, data: u16)
        ensures
            final(self).value == (high_byte(data), low_byte(data)),
            final(self).address() == data,
            final(self).hi_ptr == old(self).hi_ptr,
    {
        proof {
            lemma_split_word(data);
        }
        self.value.0 = (data >> 8) as u8;
        self.value.1 = (data & 0xFF) as u8;
    }

    /// The address.
    pub fn get(&self) -> (addr: u16)
        ensures
            addr == self.address(),
    {
        make_word(self.value.1, self.value.0)
    }

    /// Takes a byte from the CPU: the high byte of the address or the low
    /// one, as the latch says. The address is then brought into the PPU's
    /// address space, and the latch flips.
    pub fn update(&mut self, data: u8)
        ensures
            final(self).address() == mirrored(
                if old(self).hi_ptr {
                    word(old(self).value.1, data)
                } else {
                    word(data, old(self).value.0)
                },
            ),
            final(self).hi_ptr == !old(self).hi_ptr,
    {
        if self.hi_ptr {
            self.value.0 = data;
        } else {
            self.value.1 = data;
        }

        if self.is_mirror_down() {
            self.mirror_down();
        }

        self.toggle_latch();
    }

    /// Moves the address on by `inc`, within the PPU's address space. The
    /// latch stays as it is.
    pub fn increment(&mut self, inc: u8)
        ensures
            final(self).address() == mirrored(old(self).address().wrapping_add(inc as u16)),
            final(self).hi_ptr == old(self).hi_ptr,
    {
        let lo = self.value.1;

        self.value.1 = self.value.1.wrapping_add(inc);

        if lo > self.value.1 {
            self.value.0 = self.value.0.wrapping_add(1);
        }

        if self.is_mirror_down() {
            self.mirror_down();
        }
    }

    /// Makes the next byte written the high byte.
    pub fn reset_latch(&mut self)
        ensures
            final(self).hi_ptr,
            final(self).value == old(self).value,
    {
        self.hi_ptr = true;
    }

    /// Flips the latch.
    pub fn toggle_latch(&mut self)
        ensures
            final(self).hi_ptr == !old(self).hi_ptr,
            final(self).value == old(self).value,
    {
        self.hi_ptr = !self.hi_ptr;
    }

    /// Brings the address into the PPU's address space. The latch stays as
    /// it is.
    pub fn mirror_down(&mut self)
        ensures
            final(self).address() == mirrored(old(self).address()),
            final(self).hi_ptr == old(self).hi_ptr,
    {
        let value = self.get() & PPU_MEM_END;
        proof {
            lemma_mirror_down(self.address());
        }
        self.set(value);
    }

    /// Whether the address lies above the PPU's address space.
    pub fn is_mirror_down(&self) -> (above: bool)
        ensures
            above == (self.address() > PPU_MEM_END),
    {
        self.get() > PPU_MEM_END
    }
}

} // verus!
