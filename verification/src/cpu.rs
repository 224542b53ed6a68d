//! The 6502 interpreter.

use crate::bus::{Bus, Memory};
use crate::bytes::{lemma_page, lemma_split_word, make_word};
use crate::cpu::machine::{displaced, loaded_prg, stack_address, STACK_RESET};
use crate::cpu::status::lemma_carry_bit;
use crate::rom::Cartridge;
use vstd::prelude::*;

pub mod interpreter;
pub mod laws;
pub mod machine;
pub mod status;

pub use machine::Machine;
pub use status::ProcessorStatus;

verus! {

/// How an instruction finds its operand.
#[derive(Debug, Clone, Copy)]
#[allow(non_camel_case_types)]
pub enum AddressingMode {
    Immediate,
    ZeroPage,
    ZeroPage_X,
    ZeroPage_Y,
    Absolute,
    Absolute_X,
    Absolute_Y,
    Indirect,
    Indirect_X,
    Indirect_Y,
    NoneAddressing,
    Relative,
    Accumulator,
    Implicit,
}

/// Why the interpreter cannot go on: the byte at the program counter is not
/// in the instruction table.
#[derive(Debug, Clone, Copy, PartialEq, Eq, Structural)]
pub struct DecodeError {
    /// The byte that is no opcode.
    pub opcode: u8,
    /// The address at which it stands.
    pub program_counter: u16,
}

/// What `CPU::step` did.
#[derive(Debug, Clone, Copy, PartialEq, Eq, Structural)]
pub enum Step {
    /// It executed an instruction.
    Next,
    /// It fetched a BRK, which hands control back to the caller.
    Break,
}

/// Why `CPU::run` returned.
#[derive(Debug, Clone, Copy, PartialEq, Eq, Structural)]
pub enum Stop {
    /// The program reached a BRK.
    Break,
    /// The run executed as many instructions as it was allowed.
    StepLimit,
}

/// Something that answers reads and takes writes at 16-bit addresses.
pub trait Mem {
    /// The memory that the reads and writes go to.
    spec fn memory(&self) -> Memory;

    /// The byte at `addr`.
    fn mem_read(&self, addr: u16) -> (data: u8)
        requires
            self.memory().wf(),
        ensures
            data == self.memory().read(addr),
    ;

    /// Writes `data` at `addr`.
    fn mem_write(&mut self, addr: u16, data: u8)
        requires
            old(self).memory().wf(),
        ensures
            final(self).memory() == old(self).memory().write(addr, data),
    ;

    /// The little-endian word at `pos`.
    fn mem_read_u16(&self, pos: u16) -> (data: u16)
        requires
            self.memory().wf(),
        ensures
            data == self.memory().read_u16(pos),
    {
        let lo = self.mem_read(pos);
        let hi = self.mem_read(pos.wrapping_add(1));
        make_word(lo, hi)
    }

    /// Writes the little-endian word `data` at `pos`.
    fn mem_write_u16(&mut self, pos: u16, data: u16)
        requires
            old(self).memory().wf(),
        ensures
            final(self).memory() == old(self).memory().write_u16(pos, data),
    {
        let hi = (data >> 8) as u8;
        let lo = (data & 0xff) as u8;
        proof {
            lemma_split_word(data);
        }
        self.mem_write(pos, lo);
        self.mem_write(pos.wrapping_add(1), hi);
    }
}

/// `base` moved by `offset`, read as a signed number, within 16 bits.
pub fn offset_address(base: u16, offset: u8) -> (addr: u16)
    ensures
        addr == displaced(base, offset),
{
    if offset < 0x80 {
        base.wrapping_add(offset as u16)
    } else {
        base.wrapping_sub(0x100 - offset as u16)
    }
}

/// The 6502: its registers, and the bus that it reads and writes through.
pub struct CPU {
    pub accumulator: u8,
    pub status: ProcessorStatus,
    pub program_counter: u16,
    pub index_register_x: u8,
    pub index_register_y: u8,
    pub stack_pointer: u8,
    pub bus: Bus,
}

impl View for CPU {
    type V = Machine;

    open spec fn view(&self) -> Machine {
        Machine {
            a: self.accumulator,
            x: self.index_register_x,
            y: self.index_register_y,
            sp: self.stack_pointer,
            pc: self.program_counter,
            p: self.status@,
            mem: self.bus@,
        }
    }
}

impl Mem for CPU {
    open spec fn memory(&self) -> Memory {
        self.bus@
    }

    fn mem_read(&self, addr: u16) -> (data: u8) {
        self.bus.mem_read(addr)
    }

    fn mem_write(&mut self, addr: u16, data: u8)
        ensures
            final(self)@ == old(self)@.write(addr, data),
    {
        self.bus.mem_write(addr, data)
    }

    fn mem_read_u16(&self, pos: u16) -> (data: u16) {
        self.bus.mem_read_u16(pos)
    }

    fn mem_write_u16(&mut self, pos: u16, data: u16)
        ensures
            final(self)@ == (Machine { mem: old(self)@.mem.write_u16(pos, data), ..old(self)@ }),
    {
        self.bus.mem_write_u16(pos, data)
    }
}

impl CPU {
    /// The bus is usable: see `Memory::wf`.
    pub open spec fn wf(&self) -> bool {
        self@.wf()
    }

    /// A CPU on `bus`, with cleared registers and the stack pointer at its
    /// reset value.
    pub fn new(bus: Bus) -> (cpu: Self)
        ensures
            cpu@ == (Machine { a: 0, x: 0, y: 0, sp: STACK_RESET, pc: 0, p: 0, mem: bus@ }),
            cpu.bus == bus,
    {
        CPU {
            accumulator: 0,
            status: ProcessorStatus::empty(),
            program_counter: 0,
            index_register_x: 0,
            index_register_y: 0,
            stack_pointer: 0xFD,
            bus: bus,
        }
    }

    /// The target of an indirect jump whose pointer stands at the program
    /// counter.
    fn indirect_target(&self) -> (addr: u16)
        requires
            self.wf(),
        ensures
            addr == self@.indirect_target(),
    {
        let mem_address = self.mem_read_u16(self.program_counter);
        proof {
            lemma_page(mem_address);
        }
        if mem_address & 0x00FF == 0x00FF {
            let lo = self.mem_read(mem_address);
            let hi = self.mem_read(mem_address & 0xFF00);
            make_word(lo, hi)
        } else {
            self.mem_read_u16(mem_address)
        }
    }

    /// The effective address for `mode`, with the program counter at the
    /// operand. The program counter stays where it is.
    pub fn get_operand_address(&self, mode: &AddressingMode) -> (addr: u16)
        requires
            self.wf(),
            *mode !is NoneAddressing,
        ensures
            addr == self@.operand_address(*mode),
    {
        match mode {
            AddressingMode::Immediate => self.program_counter,
            AddressingMode::ZeroPage => self.mem_read(self.program_counter) as u16,
            AddressingMode::ZeroPage_X => {
                let pos = self.mem_read(self.program_counter);
                let addr = pos.wrapping_add(self.index_register_x) as u16;
                addr
            },
            AddressingMode::ZeroPage_Y => {
                let pos = self.mem_read(self.program_counter);
                let addr = pos.wrapping_add(self.index_register_y) as u16;
                addr
            },
            AddressingMode::Absolute => self.mem_read_u16(self.program_counter),
            AddressingMode::Absolute_X => {
                let pos = self.mem_read_u16(self.program_counter);
                let addr = pos.wrapping_add(self.index_register_x as u16);
                addr
            },
            AddressingMode::Absolute_Y => {
                let pos = self.mem_read_u16(self.program_counter);
                let addr = pos.wrapping_add(self.index_register_y as u16);
                addr
            },
            AddressingMode::Indirect => self.indirect_target(),
            AddressingMode::Indirect_X => {
                let base = self.mem_read(self.program_counter);
                let ptr = base.wrapping_add(self.index_register_x);
                let lo = self.mem_read(ptr as u16);
                let hi = self.mem_read(ptr.wrapping_add(1) as u16);
                make_word(lo, hi)
            },
            AddressingMode::Indirect_Y => {
                let base = self.mem_read(self.program_counter);
                let lo = self.mem_read(base as u16);
                let hi = self.mem_read(base.wrapping_add(1) as u16);
                let deref_base = make_word(lo, hi);
                let deref_addr = deref_base.wrapping_add(self.index_register_y as u16);
                deref_addr
            },
            AddressingMode::Relative => {
                let base = self.mem_read(self.program_counter);
                offset_address(self.program_counter, base)
            },
            AddressingMode::Accumulator => self.accumulator as u16,
            AddressingMode::Implicit => 0,
            AddressingMode::NoneAddressing => 0,
        }
    }

    /// Resets the registers and loads the program counter from the reset
    /// vector. Memory stays as it is.
    pub fn reset(&mut self)
        requires
            old(self).wf(),
        ensures
            final(self).wf(),
            final(self)@ == old(self)@.reset(),
    {
        self.accumulator = 0;
        self.index_register_x = 0;
        self.index_register_y = 0;
        self.stack_pointer = 0xfd;
        self.status = ProcessorStatus::from_bits_truncate(0x24);

        self.program_counter = self.mem_read_u16(0xfffc);
    }

    /// Puts `program` at the start of the cartridge's program ROM, where
    /// the CPU sees it from `0x8000` on, and points the reset vector at
    /// `0x8000`. The registers and the work RAM stay as they are.
    pub fn load(&mut self, program: Vec<u8>)
        requires
            old(self).wf(),
            program.len() <= 0x8000,
            program.len() <= old(self).bus.rom.prg_rom.len(),
        ensures
            final(self).wf(),
            final(self)@ == old(self)@.load(program@),
    {
        let ghost before = self.bus.rom.prg_rom@;
        let mut i: usize = 0;
        while i < program.len()
            invariant
                i <= program.len() <= before.len(),
                self.bus.rom.prg_rom@.len() == before.len(),
                forall|j: int| 0 <= j < i ==> self.bus.rom.prg_rom@[j] == program@[j],
                forall|j: int| i <= j < before.len() ==> self.bus.rom.prg_rom@[j] == before[j],
                self@ == (Machine {
                    mem: Memory {
                        rom: Cartridge { prg: self.bus.rom.prg_rom@, ..old(self)@.mem.rom },
                        ..old(self)@.mem
                    },
                    ..old(self)@
                }),
            decreases program.len() - i,
        {
            self.bus.rom.prg_rom[i] = program[i];
            i = i + 1;
        }
        let vector: usize = if self.bus.rom.prg_rom.len() == 0x4000 {
            0x3FFC
        } else {
            0x7FFC
        };
        self.bus.rom.prg_rom[vector] = 0x00;
        self.bus.rom.prg_rom[vector + 1] = 0x80;
        assert(self.bus.rom.prg_rom@ =~= loaded_prg(before, program@));
    }
}

impl CPU {
    /// The operand for `mode`: the accumulator, or the byte at the effective
    /// address.
    fn fetch_data(&self, mode: &AddressingMode) -> (data: u8)
        requires
            self.wf(),
            *mode !is NoneAddressing,
        ensures
            data == self@.operand(*mode),
    {
        match mode {
            AddressingMode::Accumulator => self.accumulator,
            _ => {
                let addr = self.get_operand_address(mode);
                self.mem_read(addr)
            },
        }
    }

    /// Takes N from bit 7 of `value`.
    fn update_negative_flags(&mut self, value: u8)
        ensures
            final(self)@ == old(self)@.with_flag(ProcessorStatus::NEGATIVE, value & 0x80 != 0),
    {
        if value & 0b1000_0000 != 0 {
            self.status.set(ProcessorStatus::NEGATIVE, true);
        } else {
            self.status.set(ProcessorStatus::NEGATIVE, false);
        }
    }

    /// Takes Z and N from `result`.
    fn update_zero_and_negative_flags(&mut self, result: u8)
        ensures
            final(self)@ == old(self)@.with_zn(result),
    {
        if result == 0 {
            self.status.set(ProcessorStatus::ZERO, true);
        } else {
            self.status.set(ProcessorStatus::ZERO, false);
        }
        self.update_negative_flags(result);
    }

    /// The bits of the status register under `flag`.
    fn status_bit(&self, flag: u8) -> (bits: u8)
        ensures
            bits == self@.p & flag,
    {
        self.status.bits() & flag
    }

    fn lda(&mut self, mode: &AddressingMode)
        requires
            old(self).wf(),
            *mode !is NoneAddressing,
        ensures
            final(self).wf(),
            final(self)@ == old(self)@.lda(*mode),
    {
        let value = self.fetch_data(mode);

        self.accumulator = value;
        self.update_zero_and_negative_flags(self.accumulator)
    }

    fn ldx(&mut self, mode: &AddressingMode)
        requires
            old(self).wf(),
            *mode !is NoneAddressing,
        ensures
            final(self).wf(),
            final(self)@ == old(self)@.ldx(*mode),
    {
        let value = self.fetch_data(mode);

        self.index_register_x = value;
        self.update_zero_and_negative_flags(self.index_register_x)
    }

    fn ldy(&mut self, mode: &AddressingMode)
        requires
            old(self).wf(),
            *mode !is NoneAddressing,
        ensures
            final(self).wf(),
            final(self)@ == old(self)@.ldy(*mode),
    {
        let value = self.fetch_data(mode);

        self.index_register_y = value;
        self.update_zero_and_negative_flags(self.index_register_y)
    }

    fn sta(&mut self, mode: &AddressingMode)
        requires
            old(self).wf(),
            *mode !is NoneAddressing,
        ensures
            final(self).wf(),
            final(self)@ == old(self)@.sta(*mode),
    {
        let addr = self.get_operand_address(mode);
        self.mem_write(addr, self.accumulator);
    }

    fn stx(&mut self, mode: &AddressingMode)
        requires
            old(self).wf(),
            *mode !is NoneAddressing,
        ensures
            final(self).wf(),
            final(self)@ == old(self)@.stx(*mode),
    {
        let addr = self.get_operand_address(mode);
        self.mem_write(addr, self.index_register_x);
    }

    fn sty(&mut self, mode: &AddressingMode)
        requires
            old(self).wf(),
            *mode !is NoneAddressing,
        ensures
            final(self).wf(),
            final(self)@ == old(self)@.sty(*mode),
    {
        let addr = self.get_operand_address(mode);
        self.mem_write(addr, self.index_register_y);
    }

    fn tax(&mut self)
        ensures
            final(self)@ == old(self)@.tax(),
    {
        self.index_register_x = self.accumulator;
        self.update_zero_and_negative_flags(self.index_register_x)
    }

    fn tsx(&mut self)
        ensures
            final(self)@ == old(self)@.tsx(),
    {
        self.index_register_x = self.stack_pointer;
        self.update_zero_and_negative_flags(self.index_register_x)
    }

    fn tay(&mut self)
        ensures
            final(self)@ == old(self)@.tay(),
    {
        self.index_register_y = self.accumulator;
        self.update_zero_and_negative_flags(self.index_register_y)
    }

    fn tya(&mut self)
        ensures
            final(self)@ == old(self)@.tya(),
    {
        self.accumulator = self.index_register_y;
        self.update_zero_and_negative_flags(self.accumulator)
    }

    fn txa(&mut self)
        ensures
            final(self)@ == old(self)@.txa(),
    {
        self.accumulator = self.index_register_x;
        self.update_zero_and_negative_flags(self.accumulator)
    }

    fn txs(&mut self)
        ensures
            final(self)@ == old(self)@.txs(),
    {
        self.stack_pointer = self.index_register_x;
    }

    fn inc(&mut self, mode: &AddressingMode)
        requires
            old(self).wf(),
            *mode !is NoneAddressing,
        ensures
            final(self).wf(),
            final(self)@ == old(self)@.inc(*mode),
    {
        let addr = self.get_operand_address(mode);
        let value = self.mem_read(addr);
        let incremented_value = value.wrapping_add(1);
        self.mem_write(addr, incremented_value);
        self.update_zero_and_negative_flags(incremented_value);
    }

    fn inx(&mut self)
        ensures
            final(self)@ == old(self)@.inx(),
    {
        self.index_register_x = self.index_register_x.wrapping_add(1);
        self.update_zero_and_negative_flags(self.index_register_x)
    }

    fn iny(&mut self)
        ensures
            final(self)@ == old(self)@.iny(),
    {
        self.index_register_y = self.index_register_y.wrapping_add(1);
        self.update_zero_and_negative_flags(self.index_register_y)
    }

    fn dec(&mut self, mode: &AddressingMode)
        requires
            old(self).wf(),
            *mode !is NoneAddressing,
        ensures
            final(self).wf(),
            final(self)@ == old(self)@.dec(*mode),
    {
        let addr = self.get_operand_address(mode);
        let value = self.mem_read(addr);
        let decremented_value = value.wrapping_sub(1);
        self.mem_write(addr, decremented_value);
        self.update_zero_and_negative_flags(decremented_value);
    }

    fn dex(&mut self)
        ensures
            final(self)@ == old(self)@.dex(),
    {
        self.index_register_x = self.index_register_x.wrapping_sub(1);
        self.update_zero_and_negative_flags(self.index_register_x)
    }

    fn dey(&mut self)
        ensures
            final(self)@ == old(self)@.dey(),
    {
        self.index_register_y = self.index_register_y.wrapping_sub(1);
        self.update_zero_and_negative_flags(self.index_register_y)
    }

    /// Adds `value` and the carry to the accumulator.
    fn add_to_accumulator(&mut self, value: u8)
        ensures
            final(self)@ == old(self)@.add(value),
    {
        let acc = self.accumulator;
        let carry = self.status_bit(ProcessorStatus::CARRY);
        proof {
            lemma_carry_bit(self@.p);
        }
        let sum: u16 = acc as u16 + value as u16 + carry as u16;
        let final_result = (sum % 0x100) as u8;

        self.accumulator = final_result;

        self.status.set(ProcessorStatus::CARRY, sum > 0xFF);
        self.status.set(
            ProcessorStatus::OVERFLOW,
            (acc ^ value) & 0x80 == 0 && (acc ^ final_result) & 0x80 != 0,
        );
        self.update_zero_and_negative_flags(self.accumulator);
    }

    /// Takes `value` and the borrow from the accumulator.
    fn subtract_from_accumulator(&mut self, value: u8)
        ensures
            final(self)@ == old(self)@.subtract(value),
    {
        let acc = self.accumulator;
        let carry = self.status_bit(ProcessorStatus::CARRY);
        proof {
            lemma_carry_bit(self@.p);
        }
        let borrowed: u16 = value as u16 + (1 - carry) as u16;
        let no_borrow = acc as u16 >= borrowed;
        let final_result = if no_borrow {
            (acc as u16 - borrowed) as u8
        } else {
            (0x100 + acc as u16 - borrowed) as u8
        };

        self.accumulator = final_result;

        self.status.set(ProcessorStatus::CARRY, no_borrow);
        self.status.set(
            ProcessorStatus::OVERFLOW,
            (acc ^ value) & 0x80 != 0 && (acc ^ final_result) & 0x80 != 0,
        );
        self.update_zero_and_negative_flags(self.accumulator);
    }

    fn adc(&mut self, mode: &AddressingMode)
        requires
            old(self).wf(),
            *mode !is NoneAddressing,
        ensures
            final(self).wf(),
            final(self)@ == old(self)@.adc(*mode),
    {
        let value = self.fetch_data(mode);
        self.add_to_accumulator(value);
    }

    fn sbc(&mut self, mode: &AddressingMode)
        requires
            old(self).wf(),
            *mode !is NoneAddressing,
        ensures
            final(self).wf(),
            final(self)@ == old(self)@.sbc(*mode),
    {
        let value = self.fetch_data(mode);
        self.subtract_from_accumulator(value);
    }

    fn and(&mut self, mode: &AddressingMode)
        requires
            old(self).wf(),
            *mode !is NoneAddressing,
        ensures
            final(self).wf(),
            final(self)@ == old(self)@.and(*mode),
    {
        let value = self.fetch_data(mode);
        self.accumulator = self.accumulator & value;

        self.update_zero_and_negative_flags(self.accumulator);
    }

    fn eor(&mut self, mode: &AddressingMode)
        requires
            old(self).wf(),
            *mode !is NoneAddressing,
        ensures
            final(self).wf(),
            final(self)@ == old(self)@.eor(*mode),
    {
        let value = self.fetch_data(mode);
        self.accumulator = self.accumulator ^ value;

        self.update_zero_and_negative_flags(self.accumulator);
    }

    fn ora(&mut self, mode: &AddressingMode)
        requires
            old(self).wf(),
            *mode !is NoneAddressing,
        ensures
            final(self).wf(),
            final(self)@ == old(self)@.ora(*mode),
    {
        let value = self.fetch_data(mode);
        self.accumulator = self.accumulator | value;

        self.update_zero_and_negative_flags(self.accumulator);
    }

    fn asl(&mut self, mode: &AddressingMode)
        requires
            old(self).wf(),
            *mode !is NoneAddressing,
        ensures
            final(self).wf(),
            final(self)@ == old(self)@.asl(*mode),
    {
        let mut value = self.fetch_data(mode);
        let carry = value & 0x80 != 0;

        value = value << 1;

        match mode {
            AddressingMode::Accumulator => self.accumulator = value,
            _ => {
                let addr = self.get_operand_address(mode);
                self.mem_write(addr, value);
            },
        }

        self.status.set(ProcessorStatus::CARRY, carry);
        self.update_zero_and_negative_flags(value);
    }

    fn lsr(&mut self, mode: &AddressingMode)
        requires
            old(self).wf(),
            *mode !is NoneAddressing,
        ensures
            final(self).wf(),
            final(self)@ == old(self)@.lsr(*mode),
    {
        let mut value = self.fetch_data(mode);
        let carry = value & 0x01 != 0;

        value = value >> 1;

        match mode {
            AddressingMode::Accumulator => self.accumulator = value,
            _ => {
                let addr = self.get_operand_address(mode);
                self.mem_write(addr, value)
            },
        }

        self.status.set(ProcessorStatus::CARRY, carry);
        self.update_zero_and_negative_flags(value);
    }

    fn rol(&mut self, mode: &AddressingMode)
        requires
            old(self).wf(),
            *mode !is NoneAddressing,
        ensures
            final(self).wf(),
            final(self)@ == old(self)@.rol(*mode),
    {
        let mut value = self.fetch_data(mode);

        let old_carry = self.status_bit(ProcessorStatus::CARRY);
        let carry = value & 0x80 != 0;

        value = (value << 1) | old_carry;

        match mode {
            AddressingMode::Accumulator => {
                self.accumulator = value;
            },
            _ => {
                let addr = self.get_operand_address(mode);
                self.mem_write(addr, value)
            },
        }

        self.status.set(ProcessorStatus::CARRY, carry);
        self.update_zero_and_negative_flags(value);
    }

    fn ror(&mut self, mode: &AddressingMode)
        requires
            old(self).wf(),
            *mode !is NoneAddressing,
        ensures
            final(self).wf(),
            final(self)@ == old(self)@.ror(*mode),
    {
        let mut value = self.fetch_data(mode);

        let old_carry = self.status_bit(ProcessorStatus::CARRY);
        let carry = value & 0x01 != 0;

        value = (value >> 1) | (old_carry << 7);

        match mode {
            AddressingMode::Accumulator => {
                self.accumulator = value;
            },
            _ => {
                let addr = self.get_operand_address(mode);
                self.mem_write(addr, value)
            },
        }

        self.status.set(ProcessorStatus::CARRY, carry);
        self.update_zero_and_negative_flags(value);
    }

    /// Branches on `flag`: where the flag's state is `condition`, the
    /// program counter moves past the operand byte and by the signed
    /// operand.
    fn branch(&mut self, flag: u8, condition: bool)
        requires
            old(self).wf(),
        ensures
            final(self).wf(),
            final(self)@ == old(self)@.branch(flag, condition),
    {
        let jmp = self.mem_read(self.program_counter);
        if self.status.intersects(flag) == condition {
            self.program_counter = offset_address(self.program_counter.wrapping_add(1), jmp);
        }
    }

    fn bit(&mut self, mode: &AddressingMode)
        requires
            old(self).wf(),
            *mode !is NoneAddressing,
        ensures
            final(self).wf(),
            final(self)@ == old(self)@.bit(*mode),
    {
        let value = self.fetch_data(mode);

        let zero = self.accumulator & value;
        if zero == 0 {
            self.status.insert(ProcessorStatus::ZERO)
        } else {
            self.status.remove(ProcessorStatus::ZERO)
        }

        self.status.set(ProcessorStatus::NEGATIVE, value & 0b1000_0000 != 0);
        self.status.set(ProcessorStatus::OVERFLOW, value & 0b0100_0000 != 0);
    }

    fn compare(&mut self, mode: &AddressingMode, register: u8)
        requires
            old(self).wf(),
            *mode !is NoneAddressing,
        ensures
            final(self).wf(),
            final(self)@ == old(self)@.compare(*mode, register),
    {
        let value = self.fetch_data(mode);

        if register >= value {
            self.status.insert(ProcessorStatus::CARRY);
        } else {
            self.status.remove(ProcessorStatus::CARRY);
        }

        self.update_zero_and_negative_flags(register.wrapping_sub(value))
    }

    fn cmp(&mut self, mode: &AddressingMode)
        requires
            old(self).wf(),
            *mode !is NoneAddressing,
        ensures
            final(self).wf(),
            final(self)@ == old(self)@.cmp(*mode),
    {
        self.compare(mode, self.accumulator)
    }

    fn cpx(&mut self, mode: &AddressingMode)
        requires
            old(self).wf(),
            *mode !is NoneAddressing,
        ensures
            final(self).wf(),
            final(self)@ == old(self)@.cpx(*mode),
    {
        self.compare(mode, self.index_register_x)
    }

    fn cpy(&mut self, mode: &AddressingMode)
        requires
            old(self).wf(),
            *mode !is NoneAddressing,
        ensures
            final(self).wf(),
            final(self)@ == old(self)@.cpy(*mode),
    {
        self.compare(mode, self.index_register_y)
    }

    fn pha(&mut self)
        requires
            old(self).wf(),
        ensures
            final(self).wf(),
            final(self)@ == old(self)@.pha(),
    {
        self.push(self.accumulator);
    }

    fn php(&mut self)
        requires
            old(self).wf(),
        ensures
            final(self).wf(),
            final(self)@ == old(self)@.php(),
    {
        let mut status = self.status.clone();
        status.insert(ProcessorStatus::BREAK | ProcessorStatus::BREAK_2);
        self.push(status.bits());
    }

    fn plp(&mut self)
        requires
            old(self).wf(),
        ensures
            final(self).wf(),
            final(self)@ == old(self)@.plp(),
    {
        self.status = ProcessorStatus::from_bits_truncate(self.pop());
        self.status.remove(ProcessorStatus::BREAK);
        self.status.insert(ProcessorStatus::BREAK_2);
    }

    fn pla(&mut self)
        requires
            old(self).wf(),
        ensures
            final(self).wf(),
            final(self)@ == old(self)@.pla(),
    {
        self.accumulator = self.pop();
        self.update_zero_and_negative_flags(self.accumulator)
    }

    /// Writes `data` at the stack pointer, which then goes down by one.
    fn push(&mut self, data: u8)
        requires
            old(self).wf(),
        ensures
            final(self).wf(),
            final(self)@ == old(self)@.push(data),
    {
        let addr = self.get_stack_addr();
        self.mem_write(addr, data);
        self.stack_pointer = self.stack_pointer.wrapping_sub(1);
    }

    /// Pushes `data`, high byte first.
    fn push_u16(&mut self, data: u16)
        requires
            old(self).wf(),
        ensures
            final(self).wf(),
            final(self)@ == old(self)@.push_u16(data),
    {
        let hi = (data >> 8) as u8;
        let lo = (data & 0xff) as u8;
        proof {
            lemma_split_word(data);
        }
        self.push(hi);
        self.push(lo);
    }

    /// Moves the stack pointer up by one and reads the byte there.
    fn pop(&mut self) -> (data: u8)
        requires
            old(self).wf(),
        ensures
            final(self).wf(),
            final(self)@ == old(self)@.dropped(),
            data == old(self)@.top(),
    {
        self.stack_pointer = self.stack_pointer.wrapping_add(1);
        let addr = self.get_stack_addr();
        let data = self.mem_read(addr);
        data
    }

    /// Pulls a word, low byte first.
    fn pop_u16(&mut self) -> (data: u16)
        requires
            old(self).wf(),
        ensures
            final(self).wf(),
            final(self)@ == old(self)@.dropped().dropped(),
            data == old(self)@.top_u16(),
    {
        let lo = self.pop();
        let hi = self.pop();
        make_word(lo, hi)
    }

    /// The address of the stack cell that the stack pointer points to.
    fn get_stack_addr(&self) -> (addr: u16)
        ensures
            addr == stack_address(self@.sp),
    {
        0x0100 + (self.stack_pointer as u16)
    }

    fn jmp(&mut self, mode: &AddressingMode)
        requires
            old(self).wf(),
            *mode !is NoneAddressing,
        ensures
            final(self).wf(),
            final(self)@ == old(self)@.jmp(*mode),
    {
        match mode {
            AddressingMode::Indirect => self.jmp_indirect(),
            _ => {
                let addr = self.get_operand_address(mode);
                self.program_counter = addr;
            },
        }
    }

    /// Jumps to the address that the pointer at the program counter names.
    /// The high byte of that address comes from the pointer's own page.
    fn jmp_indirect(&mut self)
        requires
            old(self).wf(),
        ensures
            final(self).wf(),
            final(self)@ == old(self)@.jmp(AddressingMode::Indirect),
    {
        let indirect_ref = self.indirect_target();

        self.program_counter = indirect_ref;
    }

    fn jsr(&mut self, mode: &AddressingMode, opcode_len: &u8)
        requires
            old(self).wf(),
            *mode !is NoneAddressing,
        ensures
            final(self).wf(),
            final(self)@ == old(self)@.jsr(*mode, *opcode_len),
    {
        let addr = self.get_operand_address(mode);
        let return_addr = self.program_counter.wrapping_add(*opcode_len as u16).wrapping_sub(2);
        self.push_u16(return_addr);
        self.program_counter = addr;
    }

    fn rts(&mut self)
        requires
            old(self).wf(),
        ensures
            final(self).wf(),
            final(self)@ == old(self)@.rts(),
    {
        let return_addr = self.pop_u16().wrapping_add(1);
        self.program_counter = return_addr;
    }

    fn rti(&mut self)
        requires
            old(self).wf(),
        ensures
            final(self).wf(),
            final(self)@ == old(self)@.rti(),
    {
        self.plp();
        self.program_counter = self.pop_u16();
    }

    fn rax(&mut self, mode: &AddressingMode)
        requires
            old(self).wf(),
            *mode !is NoneAddressing,
        ensures
            final(self).wf(),
            final(self)@ == old(self)@.lax(*mode),
    {
        self.lda(mode);
        self.tax();
    }

    fn sax(&mut self, mode: &AddressingMode)
        requires
            old(self).wf(),
            *mode !is NoneAddressing,
        ensures
            final(self).wf(),
            final(self)@ == old(self)@.sax(*mode),
    {
        let addr = self.get_operand_address(mode);
        let value = self.accumulator & self.index_register_x;
        self.mem_write(addr, value);
    }

    fn dcp(&mut self, mode: &AddressingMode)
        requires
            old(self).wf(),
            *mode !is NoneAddressing,
        ensures
            final(self).wf(),
            final(self)@ == old(self)@.dcp(*mode),
    {
        self.dec(mode);
        self.cmp(mode);
    }

    fn isb(&mut self, mode: &AddressingMode)
        requires
            old(self).wf(),
            *mode !is NoneAddressing,
        ensures
            final(self).wf(),
            final(self)@ == old(self)@.isb(*mode),
    {
        self.inc(mode);
        self.sbc(mode);
    }

    fn slo(&mut self, mode: &AddressingMode)
        requires
            old(self).wf(),
            *mode !is NoneAddressing,
        ensures
            final(self).wf(),
            final(self)@ == old(self)@.slo(*mode),
    {
        self.asl(mode);
        self.ora(mode);
    }

    fn rla(&mut self, mode: &AddressingMode)
        requires
            old(self).wf(),
            *mode !is NoneAddressing,
        ensures
            final(self).wf(),
            final(self)@ == old(self)@.rla(*mode),
    {
        self.rol(mode);
        self.and(mode);
    }

    fn sre(&mut self, mode: &AddressingMode)
        requires
            old(self).wf(),
            *mode !is NoneAddressing,
        ensures
            final(self).wf(),
            final(self)@ == old(self)@.sre(*mode),
    {
        self.lsr(mode);
        self.eor(mode);
    }

    fn rra(&mut self, mode: &AddressingMode)
        requires
            old(self).wf(),
            *mode !is NoneAddressing,
        ensures
            final(self).wf(),
            final(self)@ == old(self)@.rra(*mode),
    {
        self.ror(mode);
        self.adc(mode);
    }
}

} // verus!
