//! Words and their bytes.

use vstd::prelude::*;

verus! {

/// The 16-bit value with low byte `lo` and high byte `hi`.
pub open spec fn word(lo: u8, hi: u8) -> u16 {
    (hi * 256 + lo) as u16
}

/// The low byte of `data`.
pub open spec fn low_byte(data: u16) -> u8 {
    (data % 256) as u8
}

/// The high byte of `data`.
pub open spec fn high_byte(data: u16) -> u8 {
    (data / 256) as u8
}

/// Shifting the high byte up and or-ing the low byte in makes the word.
pub proof fn lemma_make_word(lo: u8, hi: u8)
    by (bit_vector)
    ensures
        (hi as u16) << 8 | (lo as u16) == hi as u16 * 256 + lo as u16,
{
}

/// Shifting and masking a word gives its two bytes.
pub proof fn lemma_split_word(data: u16)
    by (bit_vector)
    ensures
        data >> 8 == data / 256,
        data & 0xff == data % 256,
{
}

/// A pointer's low byte is `0xFF` where the pointer is the last byte of its
/// page, and masking that byte out gives the first byte of the page.
pub proof fn lemma_page(ptr: u16)
    by (bit_vector)
    ensures
        (ptr & 0x00FF == 0x00FF) == (ptr % 0x100 == 0xFF),
        ptr % 0x100 == 0xFF ==> ptr & 0xFF00 == (ptr - 0xFF) as u16,
{
}

/// The word with low byte `lo` and high byte `hi`.
pub fn make_word(lo: u8, hi: u8) -> (data: u16)
    ensures
        data == word(lo, hi),
{
    proof {
        lemma_make_word(lo, hi);
    }
    (hi as u16) << 8 | (lo as u16)
}

} // verus!
