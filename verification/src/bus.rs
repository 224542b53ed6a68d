//! The CPU's view of memory.
//!
//! | addresses        | what answers                                   |
//! |------------------|------------------------------------------------|
//! | `0x0000..=0x1FFF`| 2 KiB of work RAM, seen four times             |
//! | `0x2000..=0x3FFF`| the PPU's registers: reads give 0, writes are dropped |
//! | `0x4000..=0x7FFF`| nothing: reads give 0, writes are dropped      |
//! | `0x8000..=0xFFFF`| program ROM; a single page is seen twice       |

use crate::bytes::{high_byte, low_byte, word};
use crate::cpu::Mem;
use crate::rom::{Cartridge, Rom};
use vstd::prelude::*;

verus! {

/// First address of the work RAM.
pub const RAM: u16 = 0x0000;

/// Last address at which the work RAM is seen.
pub const RAM_MIRROR_END: u16 = 0x1FFF;

/// First address of the PPU's registers.
pub const PPU_REGISTERS: u16 = 0x2000;

/// Last address at which the PPU's registers are seen.
pub const PPU_REGISTERS_MIRROR_END: u16 = 0x3FFF;

/// First address of the program ROM.
pub const PRG: u16 = 0x8000;

/// Last address of the program ROM.
pub const PRG_ROM_END: u16 = 0xFFFF;

/// The bus: work RAM and the cartridge.
pub struct Bus {
    pub cpu_vram: [u8; 2048],
    pub rom: Rom,
}

/// What the bus holds, as plain mathematical values.
#[verifier::ext_equal]
pub struct Memory {
    pub ram: Seq<u8>,
    pub rom: Cartridge,
}

impl Memory {
    /// The work RAM has its 2048 bytes, and the program ROM is one page or
    /// fills the whole window.
    pub open spec fn wf(self) -> bool {
        &&& self.ram.len() == 2048
        &&& (self.rom.prg.len() == 0x4000 || self.rom.prg.len() >= 0x8000)
    }

    /// The index in program ROM that answers at `addr`, for `addr` from
    /// `PRG` on.
    pub open spec fn prg_index(self, addr: u16) -> int {
        if self.rom.prg.len() == 0x4000 {
            (addr - PRG) % 0x4000
        } else {
            addr - PRG
        }
    }

    /// The byte that a read at `addr` gives.
    pub open spec fn read(self, addr: u16) -> u8 {
        if addr <= RAM_MIRROR_END {
            self.ram[(addr % 0x0800) as int]
        } else if addr >= PRG {
            self.rom.prg[self.prg_index(addr)]
        } else {
            0
        }
    }

    /// The memory after a write of `data` at `addr`: only work RAM takes it.
    pub open spec fn write(self, addr: u16, data: u8) -> Memory {
        if addr <= RAM_MIRROR_END {
            Memory { ram: self.ram.update((addr % 0x0800) as int, data), ..self }
        } else {
            self
        }
    }

    /// The little-endian word at `pos`; the second byte is taken from
    /// address 0 where `pos` is the last address.
    pub open spec fn read_u16(self, pos: u16) -> u16 {
        word(self.read(pos), self.read(pos.wrapping_add(1)))
    }

    /// The memory after a write of the little-endian word `data` at `pos`.
    pub open spec fn write_u16(self, pos: u16, data: u16) -> Memory {
        self.write(pos, low_byte(data)).write(pos.wrapping_add(1), high_byte(data))
    }
}

impl View for Bus {
    type V = Memory;

    open spec fn view(&self) -> Memory {
        Memory { ram: self.cpu_vram@, rom: self.rom@ }
    }
}

/// Masking an address with `0x07FF` gives its remainder by the RAM's size.
pub proof fn lemma_ram_mirror(addr: u16)
    by (bit_vector)
    ensures
        addr & 0b0000_0111_1111_1111 == addr % 0x0800,
{
}

/// A byte written into work RAM is read back at the address it was written
/// at and at every address that shows the same cell; every other address
/// reads as before.
pub proof fn law_write_then_read(memory: Memory, addr: u16, data: u8)
    requires
        memory.wf(),
        addr <= RAM_MIRROR_END,
    ensures
        memory.write(addr, data).read(addr) == data,
        forall|other: u16|
            other <= RAM_MIRROR_END && other % 0x0800 == addr % 0x0800
                ==> #[trigger] memory.write(addr, data).read(other) == data,
        forall|other: u16|
            other > RAM_MIRROR_END || other % 0x0800 != addr % 0x0800
                ==> #[trigger] memory.write(addr, data).read(other) == memory.read(other),
        memory.write(addr, data).wf(),
{
}

/// A write above the work RAM changes nothing: program ROM, the PPU's
/// registers and the unmapped addresses read as before.
pub proof fn law_only_ram_takes_writes(memory: Memory, addr: u16, data: u8)
    requires
        addr > RAM_MIRROR_END,
    ensures
        memory.write(addr, data) == memory,
        forall|other: u16| #[trigger] memory.write(addr, data).read(other) == memory.read(other),
{
}

/// Above the work RAM and below program ROM every read gives 0.
pub proof fn law_unmapped_reads_zero(memory: Memory, addr: u16)
    requires
        RAM_MIRROR_END < addr < PRG,
    ensures
        memory.read(addr) == 0,
{
}

impl Bus {
    /// The bus is usable: see `Memory::wf`.
    pub open spec fn wf(&self) -> bool {
        self@.wf()
    }

    /// A bus with zeroed work RAM around `rom`.
    pub fn new(rom: Rom) -> (bus: Self)
        requires
            rom@.prg.len() == 0x4000 || rom@.prg.len() >= 0x8000,
        ensures
            bus.wf(),
            bus@ == (Memory { ram: Seq::new(2048, |i: int| 0u8), rom: rom@ }),
            bus.rom == rom,
    {
        let bus = Self { cpu_vram: [0;2048], rom: rom };
        assert(bus.cpu_vram@ =~= Seq::new(2048, |i: int| 0u8));
        bus
    }

    /// The byte of program ROM that answers at `addr`.
    fn read_prg_rom(&self, mut addr: u16) -> (data: u8)
        requires
            self.wf(),
            addr >= PRG,
        ensures
            data == self@.rom.prg[self@.prg_index(addr)],
    {
        addr -= PRG;
        if self.rom.prg_rom.len() == 0x4000 && addr >= 0x4000 {
            addr -= 0x4000;
        }
        self.rom.prg_rom[addr as usize]
    }
}

impl Mem for Bus {
    open spec fn memory(&self) -> Memory {
        self@
    }

    fn mem_read(&self, addr: u16) -> (data: u8) {
        match addr {
            PRG..=PRG_ROM_END => self.read_prg_rom(addr),
            RAM..=RAM_MIRROR_END => {
                let mirror_down_addr = addr & 0b0000_0111_1111_1111;
                proof {
                    lemma_ram_mirror(addr);
                }
                self.cpu_vram[mirror_down_addr as usize]
            },
            // The PPU is not there yet: its registers read as 0.
            PPU_REGISTERS..=PPU_REGISTERS_MIRROR_END => 0,
            _ => 0,
        }
    }

    fn mem_write(&mut self, addr: u16, data: u8)
        ensures
            final(self).rom == old(self).rom,
    {
        match addr {
            RAM..=RAM_MIRROR_END => {
                let mirror_down_addr = addr & 0b0000_0111_1111_1111;
                proof {
                    lemma_ram_mirror(addr);
                }
                self.cpu_vram[mirror_down_addr as usize] = data;
            },
            // The PPU is not there yet: its registers take no write.
            PPU_REGISTERS..=PPU_REGISTERS_MIRROR_END => {},
            // Program ROM and the unmapped addresses take no write either.
            _ => {},
        }
    }
}

} // verus!
