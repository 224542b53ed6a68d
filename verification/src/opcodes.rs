//! The instruction table: what each opcode byte means.
//!
//! The table holds the 151 documented opcodes and the unofficial ones that
//! combine two documented instructions (LAX, SAX, DCP, ISB, SLO, RLA, SRE,
//! RRA). Every other byte is unknown.

use crate::cpu::AddressingMode;
use vstd::prelude::*;

verus! {

/// What an instruction does.
#[derive(Debug, Clone, Copy, PartialEq, Eq, Structural)]
pub enum Operation {
    /// Add with carry.
    ADC,
    /// Bitwise and.
    AND,
    /// Shift left.
    ASL,
    /// Branch on carry clear.
    BCC,
    /// Branch on carry set.
    BCS,
    /// Branch on zero set.
    BEQ,
    /// Test bits.
    BIT,
    /// Branch on negative set.
    BMI,
    /// Branch on zero clear.
    BNE,
    /// Branch on negative clear.
    BPL,
    /// Break: stops the interpreter.
    BRK,
    /// Branch on overflow clear.
    BVC,
    /// Branch on overflow set.
    BVS,
    /// Clear carry.
    CLC,
    /// Clear decimal.
    CLD,
    /// Clear interrupt disable.
    CLI,
    /// Clear overflow.
    CLV,
    /// Compare A.
    CMP,
    /// Compare X.
    CPX,
    /// Compare Y.
    CPY,
    /// Unofficial: decrement, then compare A.
    DCP,
    /// Decrement memory.
    DEC,
    /// Decrement X.
    DEX,
    /// Decrement Y.
    DEY,
    /// Bitwise exclusive or.
    EOR,
    /// Increment memory.
    INC,
    /// Increment X.
    INX,
    /// Increment Y.
    INY,
    /// Unofficial: increment, then subtract.
    ISB,
    /// Jump.
    JMP,
    /// Jump to subroutine.
    JSR,
    /// Unofficial: load A and X.
    LAX,
    /// Load A.
    LDA,
    /// Load X.
    LDX,
    /// Load Y.
    LDY,
    /// Shift right.
    LSR,
    /// No operation.
    NOP,
    /// Bitwise or.
    ORA,
    /// Push A.
    PHA,
    /// Push P.
    PHP,
    /// Pull A.
    PLA,
    /// Pull P.
    PLP,
    /// Unofficial: rotate left, then and.
    RLA,
    /// Rotate left.
    ROL,
    /// Rotate right.
    ROR,
    /// Unofficial: rotate right, then add.
    RRA,
    /// Return from interrupt.
    RTI,
    /// Return from subroutine.
    RTS,
    /// Unofficial: store A and X.
    SAX,
    /// Subtract with borrow.
    SBC,
    /// Set carry.
    SEC,
    /// Set decimal.
    SED,
    /// Set interrupt disable.
    SEI,
    /// Unofficial: shift left, then or.
    SLO,
    /// Unofficial: shift right, then exclusive or.
    SRE,
    /// Store A.
    STA,
    /// Store X.
    STX,
    /// Store Y.
    STY,
    /// Transfer A to X.
    TAX,
    /// Transfer A to Y.
    TAY,
    /// Transfer SP to X.
    TSX,
    /// Transfer X to A.
    TXA,
    /// Transfer X to SP.
    TXS,
    /// Transfer Y to A.
    TYA,
}

/// One row of the instruction table.
#[derive(Debug, Clone, Copy)]
pub struct OpCode {
    /// What the instruction does.
    pub mnemonic: Operation,
    /// Length of the instruction in bytes, the opcode byte included.
    pub len: u8,
    /// Number of cycles that the instruction takes at least.
    pub cycles: u8,
    /// How the instruction finds its operand.
    pub mode: AddressingMode,
}

/// The row with the given fields.
pub open spec fn row(mnemonic: Operation, len: u8, cycles: u8, mode: AddressingMode) -> OpCode {
    OpCode { mnemonic, len, cycles, mode }
}

impl OpCode {
    /// The row with the given fields.
    pub fn new(mnemonic: Operation, len: u8, cycles: u8, mode: AddressingMode) -> (opcode: Self)
        ensures
            opcode == row(mnemonic, len, cycles, mode),
    {
        OpCode { mnemonic, len, cycles, mode }
    }
}

/// Number of bytes that an instruction with this addressing mode takes, the
/// opcode byte included.
pub open spec fn instruction_len(mode: AddressingMode) -> u8 {
    match mode {
        AddressingMode::Implicit
        | AddressingMode::Accumulator
        | AddressingMode::NoneAddressing => 1,
        AddressingMode::Absolute
        | AddressingMode::Absolute_X
        | AddressingMode::Absolute_Y
        | AddressingMode::Indirect => 3,
        _ => 2,
    }
}

/// The row of the instruction table for `code`, if it has one.
pub open spec fn decode(code: u8) -> Option<OpCode> {
    match code {
        0x00 => Some(row(Operation::BRK, 1, 7, AddressingMode::Implicit)),
        0x01 => Some(row(Operation::ORA, 2, 6, AddressingMode::Indirect_X)),
        0x03 => Some(row(Operation::SLO, 2, 8, AddressingMode::Indirect_X)),
        0x05 => Some(row(Operation::ORA, 2, 3, AddressingMode::ZeroPage)),
        0x06 => Some(row(Operation::ASL, 2, 5, AddressingMode::ZeroPage)),
        0x07 => Some(row(Operation::SLO, 2, 5, AddressingMode::ZeroPage)),
        0x08 => Some(row(Operation::PHP, 1, 3, AddressingMode::Implicit)),
        0x09 => Some(row(Operation::ORA, 2, 2, AddressingMode::Immediate)),
        0x0A => Some(row(Operation::ASL, 1, 2, AddressingMode::Accumulator)),
        0x0D => Some(row(Operation::ORA, 3, 4, AddressingMode::Absolute)),
        0x0E => Some(row(Operation::ASL, 3, 6, AddressingMode::Absolute)),
        0x0F => Some(row(Operation::SLO, 3, 6, AddressingMode::Absolute)),
        0x10 => Some(row(Operation::BPL, 2, 2, AddressingMode::Relative)),
        0x11 => Some(row(Operation::ORA, 2, 5, AddressingMode::Indirect_Y)),
        0x13 => Some(row(Operation::SLO, 2, 8, AddressingMode::Indirect_Y)),
        0x15 => Some(row(Operation::ORA, 2, 4, AddressingMode::ZeroPage_X)),
        0x16 => Some(row(Operation::ASL, 2, 6, AddressingMode::ZeroPage_X)),
        0x17 => Some(row(Operation::SLO, 2, 6, AddressingMode::ZeroPage_X)),
        0x18 => Some(row(Operation::CLC, 1, 2, AddressingMode::Implicit)),
        0x19 => Some(row(Operation::ORA, 3, 4, AddressingMode::Absolute_Y)),
        0x1B => Some(row(Operation::SLO, 3, 7, AddressingMode::Absolute_Y)),
        0x1D => Some(row(Operation::ORA, 3, 4, AddressingMode::Absolute_X)),
        0x1E => Some(row(Operation::ASL, 3, 7, AddressingMode::Absolute_X)),
        0x1F => Some(row(Operation::SLO, 3, 7, AddressingMode::Absolute_X)),
        0x20 => Some(row(Operation::JSR, 3, 6, AddressingMode::Absolute)),
        0x21 => Some(row(Operation::AND, 2, 6, AddressingMode::Indirect_X)),
        0x23 => Some(row(Operation::RLA, 2, 8, AddressingMode::Indirect_X)),
        0x24 => Some(row(Operation::BIT, 2, 3, AddressingMode::ZeroPage)),
        0x25 => Some(row(Operation::AND, 2, 3, AddressingMode::ZeroPage)),
        0x26 => Some(row(Operation::ROL, 2, 5, AddressingMode::ZeroPage)),
        0x27 => Some(row(Operation::RLA, 2, 5, AddressingMode::ZeroPage)),
        0x28 => Some(row(Operation::PLP, 1, 4, AddressingMode::Implicit)),
        0x29 => Some(row(Operation::AND, 2, 2, AddressingMode::Immediate)),
        0x2A => Some(row(Operation::ROL, 1, 2, AddressingMode::Accumulator)),
        0x2C => Some(row(Operation::BIT, 3, 4, AddressingMode::Absolute)),
        0x2D => Some(row(Operation::AND, 3, 4, AddressingMode::Absolute)),
        0x2E => Some(row(Operation::ROL, 3, 6, AddressingMode::Absolute)),
        0x2F => Some(row(Operation::RLA, 3, 6, AddressingMode::Absolute)),
        0x30 => Some(row(Operation::BMI, 2, 2, AddressingMode::Relative)),
        0x31 => Some(row(Operation::AND, 2, 5, AddressingMode::Indirect_Y)),
        0x33 => Some(row(Operation::RLA, 2, 8, AddressingMode::Indirect_Y)),
        0x35 => Some(row(Operation::AND, 2, 4, AddressingMode::ZeroPage_X)),
        0x36 => Some(row(Operation::ROL, 2, 6, AddressingMode::ZeroPage_X)),
        0x37 => Some(row(Operation::RLA, 2, 6, AddressingMode::ZeroPage_X)),
        0x38 => Some(row(Operation::SEC, 1, 2, AddressingMode::Implicit)),
        0x39 => Some(row(Operation::AND, 3, 4, AddressingMode::Absolute_Y)),
        0x3B => Some(row(Operation::RLA, 3, 7, AddressingMode::Absolute_Y)),
        0x3D => Some(row(Operation::AND, 3, 4, AddressingMode::Absolute_X)),
        0x3E => Some(row(Operation::ROL, 3, 7, AddressingMode::Absolute_X)),
        0x3F => Some(row(Operation::RLA, 3, 7, AddressingMode::Absolute_X)),
        0x40 => Some(row(Operation::RTI, 1, 6, AddressingMode::Implicit)),
        0x41 => Some(row(Operation::EOR, 2, 6, AddressingMode::Indirect_X)),
        0x43 => Some(row(Operation::SRE, 2, 8, AddressingMode::Indirect_X)),
        0x45 => Some(row(Operation::EOR, 2, 3, AddressingMode::ZeroPage)),
        0x46 => Some(row(Operation::LSR, 2, 5, AddressingMode::ZeroPage)),
        0x47 => Some(row(Operation::SRE, 2, 5, AddressingMode::ZeroPage)),
        0x48 => Some(row(Operation::PHA, 1, 3, AddressingMode::Implicit)),
        0x49 => Some(row(Operation::EOR, 2, 2, AddressingMode::Immediate)),
        0x4A => Some(row(Operation::LSR, 1, 2, AddressingMode::Accumulator)),
        0x4C => Some(row(Operation::JMP, 3, 3, AddressingMode::Absolute)),
        0x4D => Some(row(Operation::EOR, 3, 4, AddressingMode::Absolute)),
        0x4E => Some(row(Operation::LSR, 3, 6, AddressingMode::Absolute)),
        0x4F => Some(row(Operation::SRE, 3, 6, AddressingMode::Absolute)),
        0x50 => Some(row(Operation::BVC, 2, 2, AddressingMode::Relative)),
        0x51 => Some(row(Operation::EOR, 2, 5, AddressingMode::Indirect_Y)),
        0x53 => Some(row(Operation::SRE, 2, 8, AddressingMode::Indirect_Y)),
        0x55 => Some(row(Operation::EOR, 2, 4, AddressingMode::ZeroPage_X)),
        0x56 => Some(row(Operation::LSR, 2, 6, AddressingMode::ZeroPage_X)),
        0x57 => Some(row(Operation::SRE, 2, 6, AddressingMode::ZeroPage_X)),
        0x58 => Some(row(Operation::CLI, 1, 2, AddressingMode::Implicit)),
        0x59 => Some(row(Operation::EOR, 3, 4, AddressingMode::Absolute_Y)),
        0x5B => Some(row(Operation::SRE, 3, 7, AddressingMode::Absolute_Y)),
        0x5D => Some(row(Operation::EOR, 3, 4, AddressingMode::Absolute_X)),
        0x5E => Some(row(Operation::LSR, 3, 7, AddressingMode::Absolute_X)),
        0x5F => Some(row(Operation::SRE, 3, 7, AddressingMode::Absolute_X)),
        0x60 => Some(row(Operation::RTS, 1, 6, AddressingMode::Implicit)),
        0x61 => Some(row(Operation::ADC, 2, 6, AddressingMode::Indirect_X)),
        0x63 => Some(row(Operation::RRA, 2, 8, AddressingMode::Indirect_X)),
        0x65 => Some(row(Operation::ADC, 2, 3, AddressingMode::ZeroPage)),
        0x66 => Some(row(Operation::ROR, 2, 5, AddressingMode::ZeroPage)),
        0x67 => Some(row(Operation::RRA, 2, 5, AddressingMode::ZeroPage)),
        0x68 => Some(row(Operation::PLA, 1, 4, AddressingMode::Implicit)),
        0x69 => Some(row(Operation::ADC, 2, 2, AddressingMode::Immediate)),
        0x6A => Some(row(Operation::ROR, 1, 2, AddressingMode::Accumulator)),
        0x6C => Some(row(Operation::JMP, 3, 5, AddressingMode::Indirect)),
        0x6D => Some(row(Operation::ADC, 3, 4, AddressingMode::Absolute)),
        0x6E => Some(row(Operation::ROR, 3, 6, AddressingMode::Absolute)),
        0x6F => Some(row(Operation::RRA, 3, 6, AddressingMode::Absolute)),
        0x70 => Some(row(Operation::BVS, 2, 2, AddressingMode::Relative)),
        0x71 => Some(row(Operation::ADC, 2, 5, AddressingMode::Indirect_Y)),
        0x73 => Some(row(Operation::RRA, 2, 8, AddressingMode::Indirect_Y)),
        0x75 => Some(row(Operation::ADC, 2, 4, AddressingMode::ZeroPage_X)),
        0x76 => Some(row(Operation::ROR, 2, 6, AddressingMode::ZeroPage_X)),
        0x77 => Some(row(Operation::RRA, 2, 6, AddressingMode::ZeroPage_X)),
        0x78 => Some(row(Operation::SEI, 1, 2, AddressingMode::Implicit)),
        0x79 => Some(row(Operation::ADC, 3, 4, AddressingMode::Absolute_Y)),
        0x7B => Some(row(Operation::RRA, 3, 7, AddressingMode::Absolute_Y)),
        0x7D => Some(row(Operation::ADC, 3, 4, AddressingMode::Absolute_X)),
        0x7E => Some(row(Operation::ROR, 3, 7, AddressingMode::Absolute_X)),
        0x7F => Some(row(Operation::RRA, 3, 7, AddressingMode::Absolute_X)),
        0x81 => Some(row(Operation::STA, 2, 6, AddressingMode::Indirect_X)),
        0x83 => Some(row(Operation::SAX, 2, 6, AddressingMode::Indirect_X)),
        0x84 => Some(row(Operation::STY, 2, 3, AddressingMode::ZeroPage)),
        0x85 => Some(row(Operation::STA, 2, 3, AddressingMode::ZeroPage)),
        0x86 => Some(row(Operation::STX, 2, 3, AddressingMode::ZeroPage)),
        0x87 => Some(row(Operation::SAX, 2, 3, AddressingMode::ZeroPage)),
        0x88 => Some(row(Operation::DEY, 1, 2, AddressingMode::Implicit)),
        0x8A => Some(row(Operation::TXA, 1, 2, AddressingMode::Implicit)),
        0x8C => Some(row(Operation::STY, 3, 4, AddressingMode::Absolute)),
        0x8D => Some(row(Operation::STA, 3, 4, AddressingMode::Absolute)),
        0x8E => Some(row(Operation::STX, 3, 4, AddressingMode::Absolute)),
        0x8F => Some(row(Operation::SAX, 3, 4, AddressingMode::Absolute)),
        0x90 => Some(row(Operation::BCC, 2, 2, AddressingMode::Relative)),
        0x91 => Some(row(Operation::STA, 2, 6, AddressingMode::Indirect_Y)),
        0x94 => Some(row(Operation::STY, 2, 4, AddressingMode::ZeroPage_X)),
        0x95 => Some(row(Operation::STA, 2, 4, AddressingMode::ZeroPage_X)),
        0x96 => Some(row(Operation::STX, 2, 4, AddressingMode::ZeroPage_Y)),
        0x97 => Some(row(Operation::SAX, 2, 4, AddressingMode::ZeroPage_Y)),
        0x98 => Some(row(Operation::TYA, 1, 2, AddressingMode::Implicit)),
        0x99 => Some(row(Operation::STA, 3, 5, AddressingMode::Absolute_Y)),
        0x9A => Some(row(Operation::TXS, 1, 2, AddressingMode::Implicit)),
        0x9D => Some(row(Operation::STA, 3, 5, AddressingMode::Absolute_X)),
        0xA0 => Some(row(Operation::LDY, 2, 2, AddressingMode::Immediate)),
        0xA1 => Some(row(Operation::LDA, 2, 6, AddressingMode::Indirect_X)),
        0xA2 => Some(row(Operation::LDX, 2, 2, AddressingMode::Immediate)),
        0xA3 => Some(row(Operation::LAX, 2, 6, AddressingMode::Indirect_X)),
        0xA4 => Some(row(Operation::LDY, 2, 3, AddressingMode::ZeroPage)),
        0xA5 => Some(row(Operation::LDA, 2, 3, AddressingMode::ZeroPage)),
        0xA6 => Some(row(Operation::LDX, 2, 3, AddressingMode::ZeroPage)),
        0xA7 => Some(row(Operation::LAX, 2, 3, AddressingMode::ZeroPage)),
        0xA8 => Some(row(Operation::TAY, 1, 2, AddressingMode::Implicit)),
        0xA9 => Some(row(Operation::LDA, 2, 2, AddressingMode::Immediate)),
        0xAA => Some(row(Operation::TAX, 1, 2, AddressingMode::Implicit)),
        0xAC => Some(row(Operation::LDY, 3, 4, AddressingMode::Absolute)),
        0xAD => Some(row(Operation::LDA, 3, 4, AddressingMode::Absolute)),
        0xAE => Some(row(Operation::LDX, 3, 4, AddressingMode::Absolute)),
        0xAF => Some(row(Operation::LAX, 3, 4, AddressingMode::Absolute)),
        0xB0 => Some(row(Operation::BCS, 2, 2, AddressingMode::Relative)),
        0xB1 => Some(row(Operation::LDA, 2, 5, AddressingMode::Indirect_Y)),
        0xB3 => Some(row(Operation::LAX, 2, 5, AddressingMode::Indirect_Y)),
        0xB4 => Some(row(Operation::LDY, 2, 4, AddressingMode::ZeroPage_X)),
        0xB5 => Some(row(Operation::LDA, 2, 4, AddressingMode::ZeroPage_X)),
        0xB6 => Some(row(Operation::LDX, 2, 4, AddressingMode::ZeroPage_Y)),
        0xB7 => Some(row(Operation::LAX, 2, 4, AddressingMode::ZeroPage_Y)),
        0xB8 => Some(row(Operation::CLV, 1, 2, AddressingMode::Implicit)),
        0xB9 => Some(row(Operation::LDA, 3, 4, AddressingMode::Absolute_Y)),
        0xBA => Some(row(Operation::TSX, 1, 2, AddressingMode::Implicit)),
        0xBC => Some(row(Operation::LDY, 3, 4, AddressingMode::Absolute_X)),
        0xBD => Some(row(Operation::LDA, 3, 4, AddressingMode::Absolute_X)),
        0xBE => Some(row(Operation::LDX, 3, 4, AddressingMode::Absolute_Y)),
        0xBF => Some(row(Operation::LAX, 3, 4, AddressingMode::Absolute_Y)),
        0xC0 => Some(row(Operation::CPY, 2, 2, AddressingMode::Immediate)),
        0xC1 => Some(row(Operation::CMP, 2, 6, AddressingMode::Indirect_X)),
        0xC3 => Some(row(Operation::DCP, 2, 8, AddressingMode::Indirect_X)),
        0xC4 => Some(row(Operation::CPY, 2, 3, AddressingMode::ZeroPage)),
        0xC5 => Some(row(Operation::CMP, 2, 3, AddressingMode::ZeroPage)),
        0xC6 => Some(row(Operation::DEC, 2, 5, AddressingMode::ZeroPage)),
        0xC7 => Some(row(Operation::DCP, 2, 5, AddressingMode::ZeroPage)),
        0xC8 => Some(row(Operation::INY, 1, 2, AddressingMode::Implicit)),
        0xC9 => Some(row(Operation::CMP, 2, 2, AddressingMode::Immediate)),
        0xCA => Some(row(Operation::DEX, 1, 2, AddressingMode::Implicit)),
        0xCC => Some(row(Operation::CPY, 3, 4, AddressingMode::Absolute)),
        0xCD => Some(row(Operation::CMP, 3, 4, AddressingMode::Absolute)),
        0xCE => Some(row(Operation::DEC, 3, 6, AddressingMode::Absolute)),
        0xCF => Some(row(Operation::DCP, 3, 6, AddressingMode::Absolute)),
        0xD0 => Some(row(Operation::BNE, 2, 2, AddressingMode::Relative)),
        0xD1 => Some(row(Operation::CMP, 2, 5, AddressingMode::Indirect_Y)),
        0xD3 => Some(row(Operation::DCP, 2, 8, AddressingMode::Indirect_Y)),
        0xD5 => Some(row(Operation::CMP, 2, 4, AddressingMode::ZeroPage_X)),
        0xD6 => Some(row(Operation::DEC, 2, 6, AddressingMode::ZeroPage_X)),
        0xD7 => Some(row(Operation::DCP, 2, 6, AddressingMode::ZeroPage_X)),
        0xD8 => Some(row(Operation::CLD, 1, 2, AddressingMode::Implicit)),
        0xD9 => Some(row(Operation::CMP, 3, 4, AddressingMode::Absolute_Y)),
        0xDB => Some(row(Operation::DCP, 3, 7, AddressingMode::Absolute_Y)),
        0xDD => Some(row(Operation::CMP, 3, 4, AddressingMode::Absolute_X)),
        0xDE => Some(row(Operation::DEC, 3, 7, AddressingMode::Absolute_X)),
        0xDF => Some(row(Operation::DCP, 3, 7, AddressingMode::Absolute_X)),
        0xE0 => Some(row(Operation::CPX, 2, 2, AddressingMode::Immediate)),
        0xE1 => Some(row(Operation::SBC, 2, 6, AddressingMode::Indirect_X)),
        0xE3 => Some(row(Operation::ISB, 2, 8, AddressingMode::Indirect_X)),
        0xE4 => Some(row(Operation::CPX, 2, 3, AddressingMode::ZeroPage)),
        0xE5 => Some(row(Operation::SBC, 2, 3, AddressingMode::ZeroPage)),
        0xE6 => Some(row(Operation::INC, 2, 5, AddressingMode::ZeroPage)),
        0xE7 => Some(row(Operation::ISB, 2, 5, AddressingMode::ZeroPage)),
        0xE8 => Some(row(Operation::INX, 1, 2, AddressingMode::Implicit)),
        0xE9 => Some(row(Operation::SBC, 2, 2, AddressingMode::Immediate)),
        0xEA => Some(row(Operation::NOP, 1, 2, AddressingMode::Implicit)),
        0xEC => Some(row(Operation::CPX, 3, 4, AddressingMode::Absolute)),
        0xED => Some(row(Operation::SBC, 3, 4, AddressingMode::Absolute)),
        0xEE => Some(row(Operation::INC, 3, 6, AddressingMode::Absolute)),
        0xEF => Some(row(Operation::ISB, 3, 6, AddressingMode::Absolute)),
        0xF0 => Some(row(Operation::BEQ, 2, 2, AddressingMode::Relative)),
        0xF1 => Some(row(Operation::SBC, 2, 5, AddressingMode::Indirect_Y)),
        0xF3 => Some(row(Operation::ISB, 2, 8, AddressingMode::Indirect_Y)),
        0xF5 => Some(row(Operation::SBC, 2, 4, AddressingMode::ZeroPage_X)),
        0xF6 => Some(row(Operation::INC, 2, 6, AddressingMode::ZeroPage_X)),
        0xF7 => Some(row(Operation::ISB, 2, 6, AddressingMode::ZeroPage_X)),
        0xF8 => Some(row(Operation::SED, 1, 2, AddressingMode::Implicit)),
        0xF9 => Some(row(Operation::SBC, 3, 4, AddressingMode::Absolute_Y)),
        0xFB => Some(row(Operation::ISB, 3, 7, AddressingMode::Absolute_Y)),
        0xFD => Some(row(Operation::SBC, 3, 4, AddressingMode::Absolute_X)),
        0xFE => Some(row(Operation::INC, 3, 7, AddressingMode::Absolute_X)),
        0xFF => Some(row(Operation::ISB, 3, 7, AddressingMode::Absolute_X)),
        _ => None,
    }
}

/// Looks `code` up in the instruction table.
pub fn lookup(code: u8) -> (opcode: Option<OpCode>)
    ensures
        opcode == decode(code),
{
    match code {
        0x00 => Some(OpCode::new(Operation::BRK, 1, 7, AddressingMode::Implicit)),
        0x01 => Some(OpCode::new(Operation::ORA, 2, 6, AddressingMode::Indirect_X)),
        0x03 => Some(OpCode::new(Operation::SLO, 2, 8, AddressingMode::Indirect_X)),
        0x05 => Some(OpCode::new(Operation::ORA, 2, 3, AddressingMode::ZeroPage)),
        0x06 => Some(OpCode::new(Operation::ASL, 2, 5, AddressingMode::ZeroPage)),
        0x07 => Some(OpCode::new(Operation::SLO, 2, 5, AddressingMode::ZeroPage)),
        0x08 => Some(OpCode::new(Operation::PHP, 1, 3, AddressingMode::Implicit)),
        0x09 => Some(OpCode::new(Operation::ORA, 2, 2, AddressingMode::Immediate)),
        0x0A => Some(OpCode::new(Operation::ASL, 1, 2, AddressingMode::Accumulator)),
        0x0D => Some(OpCode::new(Operation::ORA, 3, 4, AddressingMode::Absolute)),
        0x0E => Some(OpCode::new(Operation::ASL, 3, 6, AddressingMode::Absolute)),
        0x0F => Some(OpCode::new(Operation::SLO, 3, 6, AddressingMode::Absolute)),
        0x10 => Some(OpCode::new(Operation::BPL, 2, 2, AddressingMode::Relative)),
        0x11 => Some(OpCode::new(Operation::ORA, 2, 5, AddressingMode::Indirect_Y)),
        0x13 => Some(OpCode::new(Operation::SLO, 2, 8, AddressingMode::Indirect_Y)),
        0x15 => Some(OpCode::new(Operation::ORA, 2, 4, AddressingMode::ZeroPage_X)),
        0x16 => Some(OpCode::new(Operation::ASL, 2, 6, AddressingMode::ZeroPage_X)),
        0x17 => Some(OpCode::new(Operation::SLO, 2, 6, AddressingMode::ZeroPage_X)),
        0x18 => Some(OpCode::new(Operation::CLC, 1, 2, AddressingMode::Implicit)),
        0x19 => Some(OpCode::new(Operation::ORA, 3, 4, AddressingMode::Absolute_Y)),
        0x1B => Some(OpCode::new(Operation::SLO, 3, 7, AddressingMode::Absolute_Y)),
        0x1D => Some(OpCode::new(Operation::ORA, 3, 4, AddressingMode::Absolute_X)),
        0x1E => Some(OpCode::new(Operation::ASL, 3, 7, AddressingMode::Absolute_X)),
        0x1F => Some(OpCode::new(Operation::SLO, 3, 7, AddressingMode::Absolute_X)),
        0x20 => Some(OpCode::new(Operation::JSR, 3, 6, AddressingMode::Absolute)),
        0x21 => Some(OpCode::new(Operation::AND, 2, 6, AddressingMode::Indirect_X)),
        0x23 => Some(OpCode::new(Operation::RLA, 2, 8, AddressingMode::Indirect_X)),
        0x24 => Some(OpCode::new(Operation::BIT, 2, 3, AddressingMode::ZeroPage)),
        0x25 => Some(OpCode::new(Operation::AND, 2, 3, AddressingMode::ZeroPage)),
        0x26 => Some(OpCode::new(Operation::ROL, 2, 5, AddressingMode::ZeroPage)),
        0x27 => Some(OpCode::new(Operation::RLA, 2, 5, AddressingMode::ZeroPage)),
        0x28 => Some(OpCode::new(Operation::PLP, 1, 4, AddressingMode::Implicit)),
        0x29 => Some(OpCode::new(Operation::AND, 2, 2, AddressingMode::Immediate)),
        0x2A => Some(OpCode::new(Operation::ROL, 1, 2, AddressingMode::Accumulator)),
        0x2C => Some(OpCode::new(Operation::BIT, 3, 4, AddressingMode::Absolute)),
        0x2D => Some(OpCode::new(Operation::AND, 3, 4, AddressingMode::Absolute)),
        0x2E => Some(OpCode::new(Operation::ROL, 3, 6, AddressingMode::Absolute)),
        0x2F => Some(OpCode::new(Operation::RLA, 3, 6, AddressingMode::Absolute)),
        0x30 => Some(OpCode::new(Operation::BMI, 2, 2, AddressingMode::Relative)),
        0x31 => Some(OpCode::new(Operation::AND, 2, 5, AddressingMode::Indirect_Y)),
        0x33 => Some(OpCode::new(Operation::RLA, 2, 8, AddressingMode::Indirect_Y)),
        0x35 => Some(OpCode::new(Operation::AND, 2, 4, AddressingMode::ZeroPage_X)),
        0x36 => Some(OpCode::new(Operation::ROL, 2, 6, AddressingMode::ZeroPage_X)),
        0x37 => Some(OpCode::new(Operation::RLA, 2, 6, AddressingMode::ZeroPage_X)),
        0x38 => Some(OpCode::new(Operation::SEC, 1, 2, AddressingMode::Implicit)),
        0x39 => Some(OpCode::new(Operation::AND, 3, 4, AddressingMode::Absolute_Y)),
        0x3B => Some(OpCode::new(Operation::RLA, 3, 7, AddressingMode::Absolute_Y)),
        0x3D => Some(OpCode::new(Operation::AND, 3, 4, AddressingMode::Absolute_X)),
        0x3E => Some(OpCode::new(Operation::ROL, 3, 7, AddressingMode::Absolute_X)),
        0x3F => Some(OpCode::new(Operation::RLA, 3, 7, AddressingMode::Absolute_X)),
        0x40 => Some(OpCode::new(Operation::RTI, 1, 6, AddressingMode::Implicit)),
        0x41 => Some(OpCode::new(Operation::EOR, 2, 6, AddressingMode::Indirect_X)),
        0x43 => Some(OpCode::new(Operation::SRE, 2, 8, AddressingMode::Indirect_X)),
        0x45 => Some(OpCode::new(Operation::EOR, 2, 3, AddressingMode::ZeroPage)),
        0x46 => Some(OpCode::new(Operation::LSR, 2, 5, AddressingMode::ZeroPage)),
        0x47 => Some(OpCode::new(Operation::SRE, 2, 5, AddressingMode::ZeroPage)),
        0x48 => Some(OpCode::new(Operation::PHA, 1, 3, AddressingMode::Implicit)),
        0x49 => Some(OpCode::new(Operation::EOR, 2, 2, AddressingMode::Immediate)),
        0x4A => Some(OpCode::new(Operation::LSR, 1, 2, AddressingMode::Accumulator)),
        0x4C => Some(OpCode::new(Operation::JMP, 3, 3, AddressingMode::Absolute)),
        0x4D => Some(OpCode::new(Operation::EOR, 3, 4, AddressingMode::Absolute)),
        0x4E => Some(OpCode::new(Operation::LSR, 3, 6, AddressingMode::Absolute)),
        0x4F => Some(OpCode::new(Operation::SRE, 3, 6, AddressingMode::Absolute)),
        0x50 => Some(OpCode::new(Operation::BVC, 2, 2, AddressingMode::Relative)),
        0x51 => Some(OpCode::new(Operation::EOR, 2, 5, AddressingMode::Indirect_Y)),
        0x53 => Some(OpCode::new(Operation::SRE, 2, 8, AddressingMode::Indirect_Y)),
        0x55 => Some(OpCode::new(Operation::EOR, 2, 4, AddressingMode::ZeroPage_X)),
        0x56 => Some(OpCode::new(Operation::LSR, 2, 6, AddressingMode::ZeroPage_X)),
        0x57 => Some(OpCode::new(Operation::SRE, 2, 6, AddressingMode::ZeroPage_X)),
        0x58 => Some(OpCode::new(Operation::CLI, 1, 2, AddressingMode::Implicit)),
        0x59 => Some(OpCode::new(Operation::EOR, 3, 4, AddressingMode::Absolute_Y)),
        0x5B => Some(OpCode::new(Operation::SRE, 3, 7, AddressingMode::Absolute_Y)),
        0x5D => Some(OpCode::new(Operation::EOR, 3, 4, AddressingMode::Absolute_X)),
        0x5E => Some(OpCode::new(Operation::LSR, 3, 7, AddressingMode::Absolute_X)),
        0x5F => Some(OpCode::new(Operation::SRE, 3, 7, AddressingMode::Absolute_X)),
        0x60 => Some(OpCode::new(Operation::RTS, 1, 6, AddressingMode::Implicit)),
        0x61 => Some(OpCode::new(Operation::ADC, 2, 6, AddressingMode::Indirect_X)),
        0x63 => Some(OpCode::new(Operation::RRA, 2, 8, AddressingMode::Indirect_X)),
        0x65 => Some(OpCode::new(Operation::ADC, 2, 3, AddressingMode::ZeroPage)),
        0x66 => Some(OpCode::new(Operation::ROR, 2, 5, AddressingMode::ZeroPage)),
        0x67 => Some(OpCode::new(Operation::RRA, 2, 5, AddressingMode::ZeroPage)),
        0x68 => Some(OpCode::new(Operation::PLA, 1, 4, AddressingMode::Implicit)),
        0x69 => Some(OpCode::new(Operation::ADC, 2, 2, AddressingMode::Immediate)),
        0x6A => Some(OpCode::new(Operation::ROR, 1, 2, AddressingMode::Accumulator)),
        0x6C => Some(OpCode::new(Operation::JMP, 3, 5, AddressingMode::Indirect)),
        0x6D => Some(OpCode::new(Operation::ADC, 3, 4, AddressingMode::Absolute)),
        0x6E => Some(OpCode::new(Operation::ROR, 3, 6, AddressingMode::Absolute)),
        0x6F => Some(OpCode::new(Operation::RRA, 3, 6, AddressingMode::Absolute)),
        0x70 => Some(OpCode::new(Operation::BVS, 2, 2, AddressingMode::Relative)),
        0x71 => Some(OpCode::new(Operation::ADC, 2, 5, AddressingMode::Indirect_Y)),
        0x73 => Some(OpCode::new(Operation::RRA, 2, 8, AddressingMode::Indirect_Y)),
        0x75 => Some(OpCode::new(Operation::ADC, 2, 4, AddressingMode::ZeroPage_X)),
        0x76 => Some(OpCode::new(Operation::ROR, 2, 6, AddressingMode::ZeroPage_X)),
        0x77 => Some(OpCode::new(Operation::RRA, 2, 6, AddressingMode::ZeroPage_X)),
        0x78 => Some(OpCode::new(Operation::SEI, 1, 2, AddressingMode::Implicit)),
        0x79 => Some(OpCode::new(Operation::ADC, 3, 4, AddressingMode::Absolute_Y)),
        0x7B => Some(OpCode::new(Operation::RRA, 3, 7, AddressingMode::Absolute_Y)),
        0x7D => Some(OpCode::new(Operation::ADC, 3, 4, AddressingMode::Absolute_X)),
        0x7E => Some(OpCode::new(Operation::ROR, 3, 7, AddressingMode::Absolute_X)),
        0x7F => Some(OpCode::new(Operation::RRA, 3, 7, AddressingMode::Absolute_X)),
        0x81 => Some(OpCode::new(Operation::STA, 2, 6, AddressingMode::Indirect_X)),
        0x83 => Some(OpCode::new(Operation::SAX, 2, 6, AddressingMode::Indirect_X)),
        0x84 => Some(OpCode::new(Operation::STY, 2, 3, AddressingMode::ZeroPage)),
        0x85 => Some(OpCode::new(Operation::STA, 2, 3, AddressingMode::ZeroPage)),
        0x86 => Some(OpCode::new(Operation::STX, 2, 3, AddressingMode::ZeroPage)),
        0x87 => Some(OpCode::new(Operation::SAX, 2, 3, AddressingMode::ZeroPage)),
        0x88 => Some(OpCode::new(Operation::DEY, 1, 2, AddressingMode::Implicit)),
        0x8A => Some(OpCode::new(Operation::TXA, 1, 2, AddressingMode::Implicit)),
        0x8C => Some(OpCode::new(Operation::STY, 3, 4, AddressingMode::Absolute)),
        0x8D => Some(OpCode::new(Operation::STA, 3, 4, AddressingMode::Absolute)),
        0x8E => Some(OpCode::new(Operation::STX, 3, 4, AddressingMode::Absolute)),
        0x8F => Some(OpCode::new(Operation::SAX, 3, 4, AddressingMode::Absolute)),
        0x90 => Some(OpCode::new(Operation::BCC, 2, 2, AddressingMode::Relative)),
        0x91 => Some(OpCode::new(Operation::STA, 2, 6, AddressingMode::Indirect_Y)),
        0x94 => Some(OpCode::new(Operation::STY, 2, 4, AddressingMode::ZeroPage_X)),
        0x95 => Some(OpCode::new(Operation::STA, 2, 4, AddressingMode::ZeroPage_X)),
        0x96 => Some(OpCode::new(Operation::STX, 2, 4, AddressingMode::ZeroPage_Y)),
        0x97 => Some(OpCode::new(Operation::SAX, 2, 4, AddressingMode::ZeroPage_Y)),
        0x98 => Some(OpCode::new(Operation::TYA, 1, 2, AddressingMode::Implicit)),
        0x99 => Some(OpCode::new(Operation::STA, 3, 5, AddressingMode::Absolute_Y)),
        0x9A => Some(OpCode::new(Operation::TXS, 1, 2, AddressingMode::Implicit)),
        0x9D => Some(OpCode::new(Operation::STA, 3, 5, AddressingMode::Absolute_X)),
        0xA0 => Some(OpCode::new(Operation::LDY, 2, 2, AddressingMode::Immediate)),
        0xA1 => Some(OpCode::new(Operation::LDA, 2, 6, AddressingMode::Indirect_X)),
        0xA2 => Some(OpCode::new(Operation::LDX, 2, 2, AddressingMode::Immediate)),
        0xA3 => Some(OpCode::new(Operation::LAX, 2, 6, AddressingMode::Indirect_X)),
        0xA4 => Some(OpCode::new(Operation::LDY, 2, 3, AddressingMode::ZeroPage)),
        0xA5 => Some(OpCode::new(Operation::LDA, 2, 3, AddressingMode::ZeroPage)),
        0xA6 => Some(OpCode::new(Operation::LDX, 2, 3, AddressingMode::ZeroPage)),
        0xA7 => Some(OpCode::new(Operation::LAX, 2, 3, AddressingMode::ZeroPage)),
        0xA8 => Some(OpCode::new(Operation::TAY, 1, 2, AddressingMode::Implicit)),
        0xA9 => Some(OpCode::new(Operation::LDA, 2, 2, AddressingMode::Immediate)),
        0xAA => Some(OpCode::new(Operation::TAX, 1, 2, AddressingMode::Implicit)),
        0xAC => Some(OpCode::new(Operation::LDY, 3, 4, AddressingMode::Absolute)),
        0xAD => Some(OpCode::new(Operation::LDA, 3, 4, AddressingMode::Absolute)),
        0xAE => Some(OpCode::new(Operation::LDX, 3, 4, AddressingMode::Absolute)),
        0xAF => Some(OpCode::new(Operation::LAX, 3, 4, AddressingMode::Absolute)),
        0xB0 => Some(OpCode::new(Operation::BCS, 2, 2, AddressingMode::Relative)),
        0xB1 => Some(OpCode::new(Operation::LDA, 2, 5, AddressingMode::Indirect_Y)),
        0xB3 => Some(OpCode::new(Operation::LAX, 2, 5, AddressingMode::Indirect_Y)),
        0xB4 => Some(OpCode::new(Operation::LDY, 2, 4, AddressingMode::ZeroPage_X)),
        0xB5 => Some(OpCode::new(Operation::LDA, 2, 4, AddressingMode::ZeroPage_X)),
        0xB6 => Some(OpCode::new(Operation::LDX, 2, 4, AddressingMode::ZeroPage_Y)),
        0xB7 => Some(OpCode::new(Operation::LAX, 2, 4, AddressingMode::ZeroPage_Y)),
        0xB8 => Some(OpCode::new(Operation::CLV, 1, 2, AddressingMode::Implicit)),
        0xB9 => Some(OpCode::new(Operation::LDA, 3, 4, AddressingMode::Absolute_Y)),
        0xBA => Some(OpCode::new(Operation::TSX, 1, 2, AddressingMode::Implicit)),
        0xBC => Some(OpCode::new(Operation::LDY, 3, 4, AddressingMode::Absolute_X)),
        0xBD => Some(OpCode::new(Operation::LDA, 3, 4, AddressingMode::Absolute_X)),
        0xBE => Some(OpCode::new(Operation::LDX, 3, 4, AddressingMode::Absolute_Y)),
        0xBF => Some(OpCode::new(Operation::LAX, 3, 4, AddressingMode::Absolute_Y)),
        0xC0 => Some(OpCode::new(Operation::CPY, 2, 2, AddressingMode::Immediate)),
        0xC1 => Some(OpCode::new(Operation::CMP, 2, 6, AddressingMode::Indirect_X)),
        0xC3 => Some(OpCode::new(Operation::DCP, 2, 8, AddressingMode::Indirect_X)),
        0xC4 => Some(OpCode::new(Operation::CPY, 2, 3, AddressingMode::ZeroPage)),
        0xC5 => Some(OpCode::new(Operation::CMP, 2, 3, AddressingMode::ZeroPage)),
        0xC6 => Some(OpCode::new(Operation::DEC, 2, 5, AddressingMode::ZeroPage)),
        0xC7 => Some(OpCode::new(Operation::DCP, 2, 5, AddressingMode::ZeroPage)),
        0xC8 => Some(OpCode::new(Operation::INY, 1, 2, AddressingMode::Implicit)),
        0xC9 => Some(OpCode::new(Operation::CMP, 2, 2, AddressingMode::Immediate)),
        0xCA => Some(OpCode::new(Operation::DEX, 1, 2, AddressingMode::Implicit)),
        0xCC => Some(OpCode::new(Operation::CPY, 3, 4, AddressingMode::Absolute)),
        0xCD => Some(OpCode::new(Operation::CMP, 3, 4, AddressingMode::Absolute)),
        0xCE => Some(OpCode::new(Operation::DEC, 3, 6, AddressingMode::Absolute)),
        0xCF => Some(OpCode::new(Operation::DCP, 3, 6, AddressingMode::Absolute)),
        0xD0 => Some(OpCode::new(Operation::BNE, 2, 2, AddressingMode::Relative)),
        0xD1 => Some(OpCode::new(Operation::CMP, 2, 5, AddressingMode::Indirect_Y)),
        0xD3 => Some(OpCode::new(Operation::DCP, 2, 8, AddressingMode::Indirect_Y)),
        0xD5 => Some(OpCode::new(Operation::CMP, 2, 4, AddressingMode::ZeroPage_X)),
        0xD6 => Some(OpCode::new(Operation::DEC, 2, 6, AddressingMode::ZeroPage_X)),
        0xD7 => Some(OpCode::new(Operation::DCP, 2, 6, AddressingMode::ZeroPage_X)),
        0xD8 => Some(OpCode::new(Operation::CLD, 1, 2, AddressingMode::Implicit)),
        0xD9 => Some(OpCode::new(Operation::CMP, 3, 4, AddressingMode::Absolute_Y)),
        0xDB => Some(OpCode::new(Operation::DCP, 3, 7, AddressingMode::Absolute_Y)),
        0xDD => Some(OpCode::new(Operation::CMP, 3, 4, AddressingMode::Absolute_X)),
        0xDE => Some(OpCode::new(Operation::DEC, 3, 7, AddressingMode::Absolute_X)),
        0xDF => Some(OpCode::new(Operation::DCP, 3, 7, AddressingMode::Absolute_X)),
        0xE0 => Some(OpCode::new(Operation::CPX, 2, 2, AddressingMode::Immediate)),
        0xE1 => Some(OpCode::new(Operation::SBC, 2, 6, AddressingMode::Indirect_X)),
        0xE3 => Some(OpCode::new(Operation::ISB, 2, 8, AddressingMode::Indirect_X)),
        0xE4 => Some(OpCode::new(Operation::CPX, 2, 3, AddressingMode::ZeroPage)),
        0xE5 => Some(OpCode::new(Operation::SBC, 2, 3, AddressingMode::ZeroPage)),
        0xE6 => Some(OpCode::new(Operation::INC, 2, 5, AddressingMode::ZeroPage)),
        0xE7 => Some(OpCode::new(Operation::ISB, 2, 5, AddressingMode::ZeroPage)),
        0xE8 => Some(OpCode::new(Operation::INX, 1, 2, AddressingMode::Implicit)),
        0xE9 => Some(OpCode::new(Operation::SBC, 2, 2, AddressingMode::Immediate)),
        0xEA => Some(OpCode::new(Operation::NOP, 1, 2, AddressingMode::Implicit)),
        0xEC => Some(OpCode::new(Operation::CPX, 3, 4, AddressingMode::Absolute)),
        0xED => Some(OpCode::new(Operation::SBC, 3, 4, AddressingMode::Absolute)),
        0xEE => Some(OpCode::new(Operation::INC, 3, 6, AddressingMode::Absolute)),
        0xEF => Some(OpCode::new(Operation::ISB, 3, 6, AddressingMode::Absolute)),
        0xF0 => Some(OpCode::new(Operation::BEQ, 2, 2, AddressingMode::Relative)),
        0xF1 => Some(OpCode::new(Operation::SBC, 2, 5, AddressingMode::Indirect_Y)),
        0xF3 => Some(OpCode::new(Operation::ISB, 2, 8, AddressingMode::Indirect_Y)),
        0xF5 => Some(OpCode::new(Operation::SBC, 2, 4, AddressingMode::ZeroPage_X)),
        0xF6 => Some(OpCode::new(Operation::INC, 2, 6, AddressingMode::ZeroPage_X)),
        0xF7 => Some(OpCode::new(Operation::ISB, 2, 6, AddressingMode::ZeroPage_X)),
        0xF8 => Some(OpCode::new(Operation::SED, 1, 2, AddressingMode::Implicit)),
        0xF9 => Some(OpCode::new(Operation::SBC, 3, 4, AddressingMode::Absolute_Y)),
        0xFB => Some(OpCode::new(Operation::ISB, 3, 7, AddressingMode::Absolute_Y)),
        0xFD => Some(OpCode::new(Operation::SBC, 3, 4, AddressingMode::Absolute_X)),
        0xFE => Some(OpCode::new(Operation::INC, 3, 7, AddressingMode::Absolute_X)),
        0xFF => Some(OpCode::new(Operation::ISB, 3, 7, AddressingMode::Absolute_X)),
        _ => None,
    }
}

/// Every row has the length that its addressing mode asks for, and none
/// has the mode `NoneAddressing`.
pub proof fn lemma_rows_are_consistent(code: u8)
    ensures
        decode(code) matches Some(opcode) ==> {
            &&& opcode.len == instruction_len(opcode.mode)
            &&& opcode.mode !is NoneAddressing
            &&& 1 <= opcode.len <= 3
        },
{
    if code < 0x20 {
    } else if code < 0x40 {
    } else if code < 0x60 {
    } else if code < 0x80 {
    } else if code < 0xA0 {
    } else if code < 0xC0 {
    } else if code < 0xE0 {
    } else {
    }
}

impl Operation {
    /// The three letters of the mnemonic.
    pub open spec fn text(self) -> Seq<char> {
        match self {
            Operation::ADC => "ADC"@,
            Operation::AND => "AND"@,
            Operation::ASL => "ASL"@,
            Operation::BCC => "BCC"@,
            Operation::BCS => "BCS"@,
            Operation::BEQ => "BEQ"@,
            Operation::BIT => "BIT"@,
            Operation::BMI => "BMI"@,
            Operation::BNE => "BNE"@,
            Operation::BPL => "BPL"@,
            Operation::BRK => "BRK"@,
            Operation::BVC => "BVC"@,
            Operation::BVS => "BVS"@,
            Operation::CLC => "CLC"@,
            Operation::CLD => "CLD"@,
            Operation::CLI => "CLI"@,
            Operation::CLV => "CLV"@,
            Operation::CMP => "CMP"@,
            Operation::CPX => "CPX"@,
            Operation::CPY => "CPY"@,
            Operation::DCP => "DCP"@,
            Operation::DEC => "DEC"@,
            Operation::DEX => "DEX"@,
            Operation::DEY => "DEY"@,
            Operation::EOR => "EOR"@,
            Operation::INC => "INC"@,
            Operation::INX => "INX"@,
            Operation::INY => "INY"@,
            Operation::ISB => "ISB"@,
            Operation::JMP => "JMP"@,
            Operation::JSR => "JSR"@,
            Operation::LAX => "LAX"@,
            Operation::LDA => "LDA"@,
            Operation::LDX => "LDX"@,
            Operation::LDY => "LDY"@,
            Operation::LSR => "LSR"@,
            Operation::NOP => "NOP"@,
            Operation::ORA => "ORA"@,
            Operation::PHA => "PHA"@,
            Operation::PHP => "PHP"@,
            Operation::PLA => "PLA"@,
            Operation::PLP => "PLP"@,
            Operation::RLA => "RLA"@,
            Operation::ROL => "ROL"@,
            Operation::ROR => "ROR"@,
            Operation::RRA => "RRA"@,
            Operation::RTI => "RTI"@,
            Operation::RTS => "RTS"@,
            Operation::SAX => "SAX"@,
            Operation::SBC => "SBC"@,
            Operation::SEC => "SEC"@,
            Operation::SED => "SED"@,
            Operation::SEI => "SEI"@,
            Operation::SLO => "SLO"@,
            Operation::SRE => "SRE"@,
            Operation::STA => "STA"@,
            Operation::STX => "STX"@,
            Operation::STY => "STY"@,
            Operation::TAX => "TAX"@,
            Operation::TAY => "TAY"@,
            Operation::TSX => "TSX"@,
            Operation::TXA => "TXA"@,
            Operation::TXS => "TXS"@,
            Operation::TYA => "TYA"@,
        }
    }

    /// The three letters of the mnemonic.
    pub fn name(&self) -> (name: &'static str)
        ensures
            name@ == self.text(),
    {
        match self {
            Operation::ADC => "ADC",
            Operation::AND => "AND",
            Operation::ASL => "ASL",
            Operation::BCC => "BCC",
            Operation::BCS => "BCS",
            Operation::BEQ => "BEQ",
            Operation::BIT => "BIT",
            Operation::BMI => "BMI",
            Operation::BNE => "BNE",
            Operation::BPL => "BPL",
            Operation::BRK => "BRK",
            Operation::BVC => "BVC",
            Operation::BVS => "BVS",
            Operation::CLC => "CLC",
            Operation::CLD => "CLD",
            Operation::CLI => "CLI",
            Operation::CLV => "CLV",
            Operation::CMP => "CMP",
            Operation::CPX => "CPX",
            Operation::CPY => "CPY",
            Operation::DCP => "DCP",
            Operation::DEC => "DEC",
            Operation::DEX => "DEX",
            Operation::DEY => "DEY",
            Operation::EOR => "EOR",
            Operation::INC => "INC",
            Operation::INX => "INX",
            Operation::INY => "INY",
            Operation::ISB => "ISB",
            Operation::JMP => "JMP",
            Operation::JSR => "JSR",
            Operation::LAX => "LAX",
            Operation::LDA => "LDA",
            Operation::LDX => "LDX",
            Operation::LDY => "LDY",
            Operation::LSR => "LSR",
            Operation::NOP => "NOP",
            Operation::ORA => "ORA",
            Operation::PHA => "PHA",
            Operation::PHP => "PHP",
            Operation::PLA => "PLA",
            Operation::PLP => "PLP",
            Operation::RLA => "RLA",
            Operation::ROL => "ROL",
            Operation::ROR => "ROR",
            Operation::RRA => "RRA",
            Operation::RTI => "RTI",
            Operation::RTS => "RTS",
            Operation::SAX => "SAX",
            Operation::SBC => "SBC",
            Operation::SEC => "SEC",
            Operation::SED => "SED",
            Operation::SEI => "SEI",
            Operation::SLO => "SLO",
            Operation::SRE => "SRE",
            Operation::STA => "STA",
            Operation::STX => "STX",
            Operation::STY => "STY",
            Operation::TAX => "TAX",
            Operation::TAY => "TAY",
            Operation::TSX => "TSX",
            Operation::TXA => "TXA",
            Operation::TXS => "TXS",
            Operation::TYA => "TYA",
        }
    }
}

} // verus!
