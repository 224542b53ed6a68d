//! The 6502 as a mathematical object: its state, and what each instruction
//! makes of a state.
//!
//! The interpreter in `crate::cpu` is proved against these definitions.

use crate::bus::Memory;
use crate::bytes::{high_byte, low_byte, word};
use crate::cpu::status::{flag_set, with_flag, ProcessorStatus};
use crate::cpu::{AddressingMode, DecodeError, Step, Stop};
use crate::opcodes::{decode, OpCode, Operation};
use crate::rom::Cartridge;
use vstd::prelude::*;

verus! {

/// First address of the stack page.
pub const STACK: u16 = 0x0100;

/// Value of the stack pointer after a reset.
pub const STACK_RESET: u8 = 0xFD;

/// Value of the status register after a reset: interrupt disable and the
/// unused bit.
pub const STATUS_RESET: u8 = 0x24;

/// Address of the word that a reset loads into the program counter.
pub const RESET_VECTOR: u16 = 0xFFFC;

/// Address at which the CPU sees the start of a loaded program.
pub const PROGRAM_START: u16 = 0x8000;

/// The state of the machine that a program can see.
#[verifier::ext_equal]
pub struct Machine {
    /// The accumulator `A`.
    pub a: u8,
    /// The index register `X`.
    pub x: u8,
    /// The index register `Y`.
    pub y: u8,
    /// The stack pointer `SP`.
    pub sp: u8,
    /// The program counter `PC`.
    pub pc: u16,
    /// The status register `P`.
    pub p: u8,
    /// Work RAM and cartridge.
    pub mem: Memory,
}

/// The operand byte of a branch, read as a signed number.
pub open spec fn signed(offset: u8) -> int {
    if offset < 0x80 {
        offset as int
    } else {
        offset - 0x100
    }
}

/// `base` moved by the signed `offset`, within 16 bits.
pub open spec fn displaced(base: u16, offset: u8) -> u16 {
    ((base + signed(offset)) % 0x1_0000) as u16
}

/// The address after `ptr` in the page of `ptr`: after the last byte of a
/// page comes its first.
pub open spec fn next_in_page(ptr: u16) -> u16 {
    if ptr % 0x100 == 0xFF {
        (ptr - 0xFF) as u16
    } else {
        (ptr + 1) as u16
    }
}

/// `value` moved one bit to the left, with `carry`, which is 0 or 1, as its
/// new bit 0.
pub open spec fn rotated_left(value: u8, carry: u8) -> u8 {
    (value << 1) | carry
}

/// `value` moved one bit to the right, with `carry`, which is 0 or 1, as
/// its new bit 7.
pub open spec fn rotated_right(value: u8, carry: u8) -> u8 {
    (value >> 1) | (carry << 7)
}

/// The address of the stack cell that `sp` points to.
pub open spec fn stack_address(sp: u8) -> u16 {
    (STACK + sp) as u16
}

/// Index in program ROM of the low byte of the reset vector.
pub open spec fn reset_vector_index(prg_len: nat) -> int {
    if prg_len == 0x4000 {
        0x3FFC
    } else {
        0x7FFC
    }
}

/// The program ROM after `program` was loaded into `prg`: `program` from
/// the start on, and then the reset vector, which points at the start.
pub open spec fn loaded_prg(prg: Seq<u8>, program: Seq<u8>) -> Seq<u8> {
    Seq::new(
        prg.len(),
        |i: int|
            if i == reset_vector_index(prg.len()) {
                0x00u8
            } else if i == reset_vector_index(prg.len()) + 1 {
                0x80u8
            } else if i < program.len() {
                program[i]
            } else {
                prg[i]
            },
    )
}

impl Machine {
    /// The memory is usable: see `Memory::wf`.
    pub open spec fn wf(self) -> bool {
        self.mem.wf()
    }

    /// The byte at `addr`.
    pub open spec fn read(self, addr: u16) -> u8 {
        self.mem.read(addr)
    }

    /// The little-endian word at `addr`.
    pub open spec fn read_u16(self, addr: u16) -> u16 {
        self.mem.read_u16(addr)
    }

    /// The state after a write of `data` at `addr`.
    pub open spec fn write(self, addr: u16, data: u8) -> Machine {
        Machine { mem: self.mem.write(addr, data), ..self }
    }

    /// Whether one of the flags of `mask` is set.
    pub open spec fn flag(self, mask: u8) -> bool {
        flag_set(self.p, mask)
    }

    /// The state with the flags of `mask` set or cleared.
    pub open spec fn with_flag(self, mask: u8, on: bool) -> Machine {
        Machine { p: with_flag(self.p, mask, on), ..self }
    }

    /// The state with Z and N taken from `result`: Z says that it is zero,
    /// N is its bit 7.
    pub open spec fn with_zn(self, result: u8) -> Machine {
        self.with_flag(ProcessorStatus::ZERO, result == 0).with_flag(
            ProcessorStatus::NEGATIVE,
            result & 0x80 != 0,
        )
    }

    /// The carry flag as a number, 0 or 1.
    pub open spec fn carry(self) -> u8 {
        self.p & ProcessorStatus::CARRY
    }

    // ------------------------------------------------------------------
    // Addressing
    // ------------------------------------------------------------------

    /// The target of an indirect jump whose pointer stands at `pc`. The high
    /// byte of the target is read from the page of the pointer, also where
    /// the pointer is the last byte of its page.
    pub open spec fn indirect_target(self) -> u16 {
        let ptr = self.read_u16(self.pc);
        word(self.read(ptr), self.read(next_in_page(ptr)))
    }

    /// The effective address for `mode`, with `pc` at the operand.
    ///
    /// For `Accumulator` this is the accumulator's value and for `Implicit`
    /// it is 0: these two modes have no address. `NoneAddressing` has none
    /// either, and no instruction of the table has that mode.
    pub open spec fn operand_address(self, mode: AddressingMode) -> u16 {
        match mode {
            AddressingMode::Immediate => self.pc,
            AddressingMode::ZeroPage => self.read(self.pc) as u16,
            AddressingMode::ZeroPage_X => self.read(self.pc).wrapping_add(self.x) as u16,
            AddressingMode::ZeroPage_Y => self.read(self.pc).wrapping_add(self.y) as u16,
            AddressingMode::Absolute => self.read_u16(self.pc),
            AddressingMode::Absolute_X => self.read_u16(self.pc).wrapping_add(self.x as u16),
            AddressingMode::Absolute_Y => self.read_u16(self.pc).wrapping_add(self.y as u16),
            AddressingMode::Indirect => self.indirect_target(),
            AddressingMode::Indirect_X => {
                let ptr = self.read(self.pc).wrapping_add(self.x);
                word(self.read(ptr as u16), self.read(ptr.wrapping_add(1) as u16))
            },
            AddressingMode::Indirect_Y => {
                let ptr = self.read(self.pc);
                word(self.read(ptr as u16), self.read(ptr.wrapping_add(1) as u16)).wrapping_add(
                    self.y as u16,
                )
            },
            AddressingMode::Relative => displaced(self.pc, self.read(self.pc)),
            AddressingMode::Accumulator => self.a as u16,
            AddressingMode::Implicit => 0,
            AddressingMode::NoneAddressing => 0,
        }
    }

    /// The operand for `mode`: the accumulator, or the byte at the effective
    /// address.
    pub open spec fn operand(self, mode: AddressingMode) -> u8 {
        if mode is Accumulator {
            self.a
        } else {
            self.read(self.operand_address(mode))
        }
    }

    /// The state after `value` was put where `mode` points: into the
    /// accumulator, or at the effective address.
    pub open spec fn store(self, mode: AddressingMode, value: u8) -> Machine {
        if mode is Accumulator {
            Machine { a: value, ..self }
        } else {
            self.write(self.operand_address(mode), value)
        }
    }

    // ------------------------------------------------------------------
    // Stack
    // ------------------------------------------------------------------

    /// The state after `data` was pushed: written at `SP`, then `SP` goes
    /// down by one within the page.
    pub open spec fn push(self, data: u8) -> Machine {
        Machine { sp: self.sp.wrapping_sub(1), ..self.write(stack_address(self.sp), data) }
    }

    /// The state after the word `data` was pushed, high byte first.
    pub open spec fn push_u16(self, data: u16) -> Machine {
        self.push(high_byte(data)).push(low_byte(data))
    }

    /// The byte that the next pull gives.
    pub open spec fn top(self) -> u8 {
        self.read(stack_address(self.sp.wrapping_add(1)))
    }

    /// The state after a pull: `SP` goes up by one within the page.
    pub open spec fn dropped(self) -> Machine {
        Machine { sp: self.sp.wrapping_add(1), ..self }
    }

    /// The word that the next two pulls give, low byte first.
    pub open spec fn top_u16(self) -> u16 {
        word(self.top(), self.dropped().top())
    }

    // ------------------------------------------------------------------
    // Loads, stores, transfers
    // ------------------------------------------------------------------

    /// LDA: the operand goes into A; Z and N come from it.
    pub open spec fn lda(self, mode: AddressingMode) -> Machine {
        let value = self.operand(mode);
        Machine { a: value, ..self }.with_zn(value)
    }

    /// LDX: the operand goes into X; Z and N come from it.
    pub open spec fn ldx(self, mode: AddressingMode) -> Machine {
        let value = self.operand(mode);
        Machine { x: value, ..self }.with_zn(value)
    }

    /// LDY: the operand goes into Y; Z and N come from it.
    pub open spec fn ldy(self, mode: AddressingMode) -> Machine {
        let value = self.operand(mode);
        Machine { y: value, ..self }.with_zn(value)
    }

    /// STA: A goes to the effective address. No flag changes.
    pub open spec fn sta(self, mode: AddressingMode) -> Machine {
        self.write(self.operand_address(mode), self.a)
    }

    /// STX: X goes to the effective address. No flag changes.
    pub open spec fn stx(self, mode: AddressingMode) -> Machine {
        self.write(self.operand_address(mode), self.x)
    }

    /// STY: Y goes to the effective address. No flag changes.
    pub open spec fn sty(self, mode: AddressingMode) -> Machine {
        self.write(self.operand_address(mode), self.y)
    }

    /// TAX: A goes into X; Z and N come from it.
    pub open spec fn tax(self) -> Machine {
        Machine { x: self.a, ..self }.with_zn(self.a)
    }

    /// TAY: A goes into Y; Z and N come from it.
    pub open spec fn tay(self) -> Machine {
        Machine { y: self.a, ..self }.with_zn(self.a)
    }

    /// TXA: X goes into A; Z and N come from it.
    pub open spec fn txa(self) -> Machine {
        Machine { a: self.x, ..self }.with_zn(self.x)
    }

    /// TYA: Y goes into A; Z and N come from it.
    pub open spec fn tya(self) -> Machine {
        Machine { a: self.y, ..self }.with_zn(self.y)
    }

    /// TSX: SP goes into X; Z and N come from it.
    pub open spec fn tsx(self) -> Machine {
        Machine { x: self.sp, ..self }.with_zn(self.sp)
    }

    /// TXS moves X to SP and touches no flag.
    pub open spec fn txs(self) -> Machine {
        Machine { sp: self.x, ..self }
    }

    // ------------------------------------------------------------------
    // Increments and decrements
    // ------------------------------------------------------------------

    /// INC: the byte at the effective address goes up by one, from `0xFF` to 0; Z and N
    /// come from the new byte.
    pub open spec fn inc(self, mode: AddressingMode) -> Machine {
        let addr = self.operand_address(mode);
        let value = self.read(addr).wrapping_add(1);
        self.write(addr, value).with_zn(value)
    }

    /// DEC: the byte at the effective address goes down by one, from 0 to `0xFF`; Z and N
    /// come from the new byte.
    pub open spec fn dec(self, mode: AddressingMode) -> Machine {
        let addr = self.operand_address(mode);
        let value = self.read(addr).wrapping_sub(1);
        self.write(addr, value).with_zn(value)
    }

    /// INX: X goes up by one, from `0xFF` to 0; Z and N come from it.
    pub open spec fn inx(self) -> Machine {
        let value = self.x.wrapping_add(1);
        Machine { x: value, ..self }.with_zn(value)
    }

    /// INY: Y goes up by one, from `0xFF` to 0; Z and N come from it.
    pub open spec fn iny(self) -> Machine {
        let value = self.y.wrapping_add(1);
        Machine { y: value, ..self }.with_zn(value)
    }

    /// DEX: X goes down by one, from 0 to `0xFF`; Z and N come from it.
    pub open spec fn dex(self) -> Machine {
        let value = self.x.wrapping_sub(1);
        Machine { x: value, ..self }.with_zn(value)
    }

    /// DEY: Y goes down by one, from 0 to `0xFF`; Z and N come from it.
    pub open spec fn dey(self) -> Machine {
        let value = self.y.wrapping_sub(1);
        Machine { y: value, ..self }.with_zn(value)
    }

    // ------------------------------------------------------------------
    // Arithmetic and logic
    // ------------------------------------------------------------------

    /// The state after `value` and the carry were added to A. C is the
    /// carry out of bit 7; V says that two operands of one sign gave a
    /// result of the other sign. Decimal mode changes nothing.
    pub open spec fn add(self, value: u8) -> Machine {
        let sum = self.a + value + self.carry();
        let result = (sum % 0x100) as u8;
        Machine { a: result, ..self }.with_flag(ProcessorStatus::CARRY, sum > 0xFF).with_flag(
            ProcessorStatus::OVERFLOW,
            (self.a ^ value) & 0x80 == 0 && (self.a ^ result) & 0x80 != 0,
        ).with_zn(result)
    }

    /// The state after `value` and the borrow, which is the complement of
    /// the carry, were taken from A. C says that nothing was borrowed; V
    /// says that operands of different signs gave a result whose sign is
    /// not that of A.
    pub open spec fn subtract(self, value: u8) -> Machine {
        let difference = self.a - value - (1 - self.carry());
        let result = (difference % 0x100) as u8;
        Machine { a: result, ..self }.with_flag(ProcessorStatus::CARRY, difference >= 0).with_flag(
            ProcessorStatus::OVERFLOW,
            (self.a ^ value) & 0x80 != 0 && (self.a ^ result) & 0x80 != 0,
        ).with_zn(result)
    }

    /// ADC: the operand and the carry are added to A.
    pub open spec fn adc(self, mode: AddressingMode) -> Machine {
        self.add(self.operand(mode))
    }

    /// SBC: the operand and the borrow are taken from A.
    pub open spec fn sbc(self, mode: AddressingMode) -> Machine {
        self.subtract(self.operand(mode))
    }

    /// AND: A keeps the bits that the operand has too; Z and N come from A.
    pub open spec fn and(self, mode: AddressingMode) -> Machine {
        let value = self.a & self.operand(mode);
        Machine { a: value, ..self }.with_zn(value)
    }

    /// EOR: A keeps the bits that only one of A and the operand has; Z and N come from A.
    pub open spec fn eor(self, mode: AddressingMode) -> Machine {
        let value = self.a ^ self.operand(mode);
        Machine { a: value, ..self }.with_zn(value)
    }

    /// ORA: A takes the bits of the operand too; Z and N come from A.
    pub open spec fn ora(self, mode: AddressingMode) -> Machine {
        let value = self.a | self.operand(mode);
        Machine { a: value, ..self }.with_zn(value)
    }

    // ------------------------------------------------------------------
    // Shifts and rotates: C is the bit that leaves, Z and N come from the
    // byte that stays
    // ------------------------------------------------------------------

    /// ASL: the operand moves one bit to the left; bit 7 leaves into C, bit 0 is 0.
    pub open spec fn asl(self, mode: AddressingMode) -> Machine {
        let value = self.operand(mode);
        let result = value << 1;
        self.store(mode, result).with_flag(ProcessorStatus::CARRY, value & 0x80 != 0).with_zn(
            result,
        )
    }

    /// LSR: the operand moves one bit to the right; bit 0 leaves into C, bit 7 is 0.
    pub open spec fn lsr(self, mode: AddressingMode) -> Machine {
        let value = self.operand(mode);
        let result = value >> 1;
        self.store(mode, result).with_flag(ProcessorStatus::CARRY, value & 0x01 != 0).with_zn(
            result,
        )
    }

    /// ROL: the operand moves one bit to the left; bit 7 leaves into C, the old C is bit
    /// 0.
    pub open spec fn rol(self, mode: AddressingMode) -> Machine {
        let value = self.operand(mode);
        let result = rotated_left(value, self.carry());
        self.store(mode, result).with_flag(ProcessorStatus::CARRY, value & 0x80 != 0).with_zn(
            result,
        )
    }

    /// ROR: the operand moves one bit to the right; bit 0 leaves into C, the old C is bit
    /// 7.
    pub open spec fn ror(self, mode: AddressingMode) -> Machine {
        let value = self.operand(mode);
        let result = rotated_right(value, self.carry());
        self.store(mode, result).with_flag(ProcessorStatus::CARRY, value & 0x01 != 0).with_zn(
            result,
        )
    }

    // ------------------------------------------------------------------
    // Tests and compares
    // ------------------------------------------------------------------

    /// BIT: Z says that A and the operand share no bit, N and V are bits 7
    /// and 6 of the operand. A stays.
    pub open spec fn bit(self, mode: AddressingMode) -> Machine {
        let value = self.operand(mode);
        self.with_flag(ProcessorStatus::ZERO, self.a & value == 0).with_flag(
            ProcessorStatus::NEGATIVE,
            value & 0x80 != 0,
        ).with_flag(ProcessorStatus::OVERFLOW, value & 0x40 != 0)
    }

    /// The state after `register` was compared with the operand: C says
    /// that the register is not below it, Z and N come from the difference.
    pub open spec fn compare(self, mode: AddressingMode, register: u8) -> Machine {
        let value = self.operand(mode);
        self.with_flag(ProcessorStatus::CARRY, register >= value).with_zn(
            register.wrapping_sub(value),
        )
    }

    /// CMP: A is compared with the operand.
    pub open spec fn cmp(self, mode: AddressingMode) -> Machine {
        self.compare(mode, self.a)
    }

    /// CPX: X is compared with the operand.
    pub open spec fn cpx(self, mode: AddressingMode) -> Machine {
        self.compare(mode, self.x)
    }

    /// CPY: Y is compared with the operand.
    pub open spec fn cpy(self, mode: AddressingMode) -> Machine {
        self.compare(mode, self.y)
    }

    // ------------------------------------------------------------------
    // Stack instructions
    // ------------------------------------------------------------------

    /// PHA: A is pushed.
    pub open spec fn pha(self) -> Machine {
        self.push(self.a)
    }

    /// PHP pushes P with the break bit and the unused bit set.
    pub open spec fn php(self) -> Machine {
        self.push(self.p | (ProcessorStatus::BREAK | ProcessorStatus::BREAK_2))
    }

    /// PLA: A is pulled; Z and N come from it.
    pub open spec fn pla(self) -> Machine {
        let value = self.top();
        Machine { a: value, ..self.dropped() }.with_zn(value)
    }

    /// PLP pulls P, then clears the break bit and sets the unused bit.
    pub open spec fn plp(self) -> Machine {
        Machine { p: self.top(), ..self.dropped() }.with_flag(
            ProcessorStatus::BREAK,
            false,
        ).with_flag(ProcessorStatus::BREAK_2, true)
    }

    // ------------------------------------------------------------------
    // Control flow
    // ------------------------------------------------------------------

    /// A branch on the flag `mask`, taken where the flag's state is
    /// `condition`: `pc` then moves past the operand byte and by the signed
    /// operand.
    pub open spec fn branch(self, mask: u8, condition: bool) -> Machine {
        if self.flag(mask) == condition {
            Machine { pc: displaced(self.pc.wrapping_add(1), self.read(self.pc)), ..self }
        } else {
            self
        }
    }

    /// JMP: `pc` becomes the effective address; for the indirect mode that is
    /// `indirect_target`.
    pub open spec fn jmp(self, mode: AddressingMode) -> Machine {
        Machine { pc: self.operand_address(mode), ..self }
    }

    /// JSR pushes the address of the last byte of the instruction, which is
    /// `len` bytes long and whose operand `pc` is at, and jumps.
    pub open spec fn jsr(self, mode: AddressingMode, len: u8) -> Machine {
        let target = self.operand_address(mode);
        let return_address = self.pc.wrapping_add(len as u16).wrapping_sub(2);
        Machine { pc: target, ..self.push_u16(return_address) }
    }

    /// RTS pulls an address and goes on behind it.
    pub open spec fn rts(self) -> Machine {
        Machine { pc: self.top_u16().wrapping_add(1), ..self.dropped().dropped() }
    }

    /// RTI pulls P as PLP does, then pulls `pc`.
    pub open spec fn rti(self) -> Machine {
        let restored = self.plp();
        Machine { pc: restored.top_u16(), ..restored.dropped().dropped() }
    }

    // ------------------------------------------------------------------
    // Unofficial combinations: the second instruction works on what the
    // first one left
    // ------------------------------------------------------------------

    /// LAX: LDA, then TAX.
    pub open spec fn lax(self, mode: AddressingMode) -> Machine {
        self.lda(mode).tax()
    }

    /// SAX stores the bits that A and X share, and touches no flag.
    pub open spec fn sax(self, mode: AddressingMode) -> Machine {
        self.write(self.operand_address(mode), self.a & self.x)
    }

    /// DCP: DEC, then CMP.
    pub open spec fn dcp(self, mode: AddressingMode) -> Machine {
        self.dec(mode).cmp(mode)
    }

    /// ISB: INC, then SBC.
    pub open spec fn isb(self, mode: AddressingMode) -> Machine {
        self.inc(mode).sbc(mode)
    }

    /// SLO: ASL, then ORA.
    pub open spec fn slo(self, mode: AddressingMode) -> Machine {
        self.asl(mode).ora(mode)
    }

    /// RLA: ROL, then AND.
    pub open spec fn rla(self, mode: AddressingMode) -> Machine {
        self.rol(mode).and(mode)
    }

    /// SRE: LSR, then EOR.
    pub open spec fn sre(self, mode: AddressingMode) -> Machine {
        self.lsr(mode).eor(mode)
    }

    /// RRA: ROR, then ADC.
    pub open spec fn rra(self, mode: AddressingMode) -> Machine {
        self.ror(mode).adc(mode)
    }

    // ------------------------------------------------------------------
    // Reset and load
    // ------------------------------------------------------------------

    /// The state after a reset: registers cleared, `SP` and `P` at their
    /// reset values, `pc` from the reset vector.
    pub open spec fn reset(self) -> Machine {
        Machine {
            a: 0,
            x: 0,
            y: 0,
            sp: STACK_RESET,
            p: STATUS_RESET,
            pc: self.read_u16(RESET_VECTOR),
            mem: self.mem,
        }
    }

    /// The state after `program` was loaded: the cartridge's program ROM
    /// starts with it, and the reset vector points at its start.
    pub open spec fn load(self, program: Seq<u8>) -> Machine {
        Machine {
            mem: Memory {
                rom: Cartridge {
                    prg: loaded_prg(self.mem.rom.prg, program),
                    ..self.mem.rom
                },
                ..self.mem
            },
            ..self
        }
    }
    // ------------------------------------------------------------------
    // The interpreter
    // ------------------------------------------------------------------

    /// The row of the instruction table for the byte at `pc`.
    pub open spec fn opcode(self) -> Option<OpCode> {
        decode(self.read(self.pc))
    }

    /// The state with `pc` as the program counter.
    pub open spec fn at(self, pc: u16) -> Machine {
        Machine { pc, ..self }
    }

    /// The state after the opcode byte was fetched: `pc` is at the operand.
    pub open spec fn fetched(self) -> Machine {
        self.at(self.pc.wrapping_add(1))
    }

    /// What the instruction of `opcode` makes of a state whose `pc` is at
    /// the operand. BRK changes nothing here: it stops the interpreter.
    pub open spec fn execute(self, opcode: OpCode) -> Machine {
        let mode = opcode.mode;
        match opcode.mnemonic {
            Operation::LDA => self.lda(mode),
            Operation::LDX => self.ldx(mode),
            Operation::LDY => self.ldy(mode),
            Operation::STA => self.sta(mode),
            Operation::STX => self.stx(mode),
            Operation::STY => self.sty(mode),
            Operation::TAX => self.tax(),
            Operation::TAY => self.tay(),
            Operation::TYA => self.tya(),
            Operation::TXA => self.txa(),
            Operation::TSX => self.tsx(),
            Operation::TXS => self.txs(),
            Operation::INC => self.inc(mode),
            Operation::INX => self.inx(),
            Operation::INY => self.iny(),
            Operation::DEC => self.dec(mode),
            Operation::DEX => self.dex(),
            Operation::DEY => self.dey(),
            Operation::ADC => self.adc(mode),
            Operation::SBC => self.sbc(mode),
            Operation::AND => self.and(mode),
            Operation::EOR => self.eor(mode),
            Operation::ORA => self.ora(mode),
            Operation::ASL => self.asl(mode),
            Operation::LSR => self.lsr(mode),
            Operation::ROL => self.rol(mode),
            Operation::ROR => self.ror(mode),
            Operation::BRK => self,
            Operation::RTI => self.rti(),
            Operation::BCC => self.branch(ProcessorStatus::CARRY, false),
            Operation::BCS => self.branch(ProcessorStatus::CARRY, true),
            Operation::BVC => self.branch(ProcessorStatus::OVERFLOW, false),
            Operation::BVS => self.branch(ProcessorStatus::OVERFLOW, true),
            Operation::BPL => self.branch(ProcessorStatus::NEGATIVE, false),
            Operation::BMI => self.branch(ProcessorStatus::NEGATIVE, true),
            Operation::BNE => self.branch(ProcessorStatus::ZERO, false),
            Operation::BEQ => self.branch(ProcessorStatus::ZERO, true),
            Operation::BIT => self.bit(mode),
            Operation::CLC => self.with_flag(ProcessorStatus::CARRY, false),
            Operation::SEC => self.with_flag(ProcessorStatus::CARRY, true),
            Operation::CLI => self.with_flag(ProcessorStatus::INTERRUPT_DISABLE, false),
            Operation::SEI => self.with_flag(ProcessorStatus::INTERRUPT_DISABLE, true),
            Operation::CLD => self.with_flag(ProcessorStatus::DECIMAL, false),
            Operation::SED => self.with_flag(ProcessorStatus::DECIMAL, true),
            Operation::CLV => self.with_flag(ProcessorStatus::OVERFLOW, false),
            Operation::CMP => self.cmp(mode),
            Operation::CPX => self.cpx(mode),
            Operation::CPY => self.cpy(mode),
            Operation::NOP => self,
            Operation::PHA => self.pha(),
            Operation::PLA => self.pla(),
            Operation::PHP => self.php(),
            Operation::PLP => self.plp(),
            Operation::JMP => self.jmp(mode),
            Operation::JSR => self.jsr(mode, opcode.len),
            Operation::RTS => self.rts(),
            Operation::LAX => self.lax(mode),
            Operation::SAX => self.sax(mode),
            Operation::DCP => self.dcp(mode),
            Operation::ISB => self.isb(mode),
            Operation::SLO => self.slo(mode),
            Operation::RLA => self.rla(mode),
            Operation::SRE => self.sre(mode),
            Operation::RRA => self.rra(mode),
        }
    }

    /// The state with `pc` moved past the operand bytes of an instruction
    /// that is `len` bytes long, where `pc` still is where the fetch left
    /// it, at `operand`; an instruction that moved `pc` has the last word.
    pub open spec fn past_operand(self, operand: u16, len: u8) -> Machine {
        if self.pc == operand {
            Machine { pc: self.pc.wrapping_add(operand_len(len)), ..self }
        } else {
            self
        }
    }

    /// Whether the byte at `pc` is the opcode of BRK.
    pub open spec fn at_break(self) -> bool {
        self.opcode() matches Some(opcode) && opcode.mnemonic is BRK
    }

    /// The state after one instruction. An unknown opcode leaves the state
    /// as it is; BRK leaves `pc` behind its opcode byte.
    pub open spec fn step(self) -> Machine {
        match self.opcode() {
            None => self,
            Some(opcode) => if opcode.mnemonic is BRK {
                self.fetched()
            } else {
                self.fetched().execute(opcode).past_operand(self.fetched().pc, opcode.len)
            },
        }
    }

    /// What `step` reports: an error for an unknown opcode, and else
    /// whether the instruction was a BRK.
    pub open spec fn step_result(self) -> Result<Step, DecodeError> {
        match self.opcode() {
            None => Err(self.decode_error()),
            Some(opcode) => if opcode.mnemonic is BRK {
                Ok(Step::Break)
            } else {
                Ok(Step::Next)
            },
        }
    }

    /// The error that an unknown opcode at `pc` gives.
    pub open spec fn decode_error(self) -> DecodeError {
        DecodeError { opcode: self.read(self.pc), program_counter: self.pc }
    }

    /// The state in which a run of at most `limit` instructions ends.
    pub open spec fn run(self, limit: nat) -> Machine
        decreases limit,
    {
        if limit == 0 || self.opcode() is None {
            self
        } else if self.at_break() {
            self.step()
        } else {
            self.step().run((limit - 1) as nat)
        }
    }

    /// How a run of at most `limit` instructions ends: at a BRK, at an
    /// unknown opcode, or because it has executed `limit` instructions.
    pub open spec fn run_end(self, limit: nat) -> Result<Stop, DecodeError>
        decreases limit,
    {
        if limit == 0 {
            Ok(Stop::StepLimit)
        } else if self.opcode() is None {
            Err(self.decode_error())
        } else if self.at_break() {
            Ok(Stop::Break)
        } else {
            self.step().run_end((limit - 1) as nat)
        }
    }
}

/// Number of operand bytes of an instruction that is `len` bytes long.
pub open spec fn operand_len(len: u8) -> u16 {
    (len - 1) as u16
}

} // verus!
