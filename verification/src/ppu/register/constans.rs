//! The map of the PPU's address space.
//!
//! | addresses       | size    | what is there             |
//! |-----------------|---------|---------------------------|
//! | `$0000`-`$0FFF` | `$1000` | pattern table 0           |
//! | `$1000`-`$1FFF` | `$1000` | pattern table 1           |
//! | `$2000`-`$23FF` | `$0400` | name table 0              |
//! | `$2400`-`$27FF` | `$0400` | name table 1              |
//! | `$2800`-`$2BFF` | `$0400` | name table 2              |
//! | `$2C00`-`$2FFF` | `$0400` | name table 3              |
//! | `$3000`-`$3EFF` | `$0F00` | mirrors of `$2000`-`$2EFF` |
//! | `$3F00`-`$3F1F` | `$0020` | palette RAM indexes       |
//! | `$3F20`-`$3FFF` | `$00E0` | mirrors of `$3F00`-`$3F1F` |

use std::ops::Bound;
use vstd::prelude::*;

verus! {

/// The bound of a range, as the standard library has it: a plain enum whose
/// variants `Included` and `Excluded` hold the bound and whose variant
/// `Unbounded` holds nothing.
#[verifier::external_type_specification]
#[verifier::reject_recursive_types(T)]
pub struct ExBound<T>(Bound<T>);

/// A range of addresses, both ends included.
pub struct AddressRange {
    pub start: u16,
    pub end: u16,
}

impl AddressRange {
    /// The range from `start` to `end`, both included.
    pub open spec fn spanning(start: u16, end: u16) -> AddressRange {
        AddressRange { start, end }
    }

    /// The lower bound: `start`, included.
    pub fn start_bound(&self) -> (bound: Bound<&u16>)
        ensures
            bound == Bound::Included(&self.start),
    {
        Bound::Included(&self.start)
    }

    /// The upper bound: `end`, included.
    pub fn end_bound(&self) -> (bound: Bound<&u16>)
        ensures
            bound == Bound::Included(&self.end),
    {
        Bound::Included(&self.end)
    }

    /// Whether `item` lies in the range.
    pub fn contains(&self, item: &u16) -> (inside: bool)
        ensures
            inside == (self.start <= *item <= self.end),
    {
        self.start <= *item && *item <= self.end
    }
}

/// Last address of the PPU's address space.
pub const PPU_MEM_END: u16 = 0x3FFF;

/// One kibibyte.
pub const ONE_KB: u16 = 1024;

/// The whole address space of the PPU.
pub fn ppu_mem_range() -> (range: AddressRange)
    ensures
        range == AddressRange::spanning(0x0000, 0x3FFF),
{
    AddressRange { start: 0x0000, end: PPU_MEM_END }
}

/// Character ROM: both pattern tables.
pub fn chr_rom_range() -> (range: AddressRange)
    ensures
        range == AddressRange::spanning(0x0000, 0x1FFF),
{
    AddressRange { start: 0x0000, end: 0x1FFF }
}

/// Pattern table 0.
pub fn chr_rom_0_range() -> (range: AddressRange)
    ensures
        range == AddressRange::spanning(0x0000, 0x0FFF),
{
    AddressRange { start: 0x0000, end: 0x0FFF }
}

/// Pattern table 1.
pub fn chr_rom_1_range() -> (range: AddressRange)
    ensures
        range == AddressRange::spanning(0x1000, 0x1FFF),
{
    AddressRange { start: 0x1000, end: 0x1FFF }
}

/// The four name tables.
pub fn name_table_range() -> (range: AddressRange)
    ensures
        range == AddressRange::spanning(0x2000, 0x2FFF),
{
    AddressRange { start: 0x2000, end: 0x2FFF }
}

/// Name table 0.
pub fn name_table_0_range() -> (range: AddressRange)
    ensures
        range == AddressRange::spanning(0x2000, 0x23FF),
{
    AddressRange { start: 0x2000, end: 0x23FF }
}

/// Name table 1.
pub fn name_table_1_range() -> (range: AddressRange)
    ensures
        range == AddressRange::spanning(0x2400, 0x27FF),
{
    AddressRange { start: 0x2400, end: 0x27FF }
}

/// Name table 2.
pub fn name_table_2_range() -> (range: AddressRange)
    ensures
        range == AddressRange::spanning(0x2800, 0x2BFF),
{
    AddressRange { start: 0x2800, end: 0x2BFF }
}

/// Name table 3.
pub fn name_table_3_range() -> (range: AddressRange)
    ensures
        range == AddressRange::spanning(0x2C00, 0x2FFF),
{
    AddressRange { start: 0x2C00, end: 0x2FFF }
}

/// Where the name tables are seen a second time.
pub fn name_table_mirror_range() -> (range: AddressRange)
    ensures
        range == AddressRange::spanning(0x3000, 0x3EFF),
{
    AddressRange { start: 0x3000, end: 0x3EFF }
}

/// The palette RAM indexes.
pub fn pallet_ram_index_range() -> (range: AddressRange)
    ensures
        range == AddressRange::spanning(0x3F00, 0x3F1F),
{
    AddressRange { start: 0x3F00, end: 0x3F1F }
}

/// Where the palette RAM indexes are seen again.
pub fn pallet_ram_mirror_range() -> (range: AddressRange)
    ensures
        range == AddressRange::spanning(0x3F20, 0x3FFF),
{
    AddressRange { start: 0x3F20, end: 0x3FFF }
}

} // verus!
