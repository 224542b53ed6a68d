//! One line of trace for the instruction that the CPU is about to execute,
//! in the format of the Nintendulator's log:
//!
//! ```text
//! 0066  A5 20     LDA $20 = 00                    A:10 X:02 Y:03 P:24 SP:FD
//! ```
//!
//! The program counter fills a column of 6 characters, the bytes of the
//! instruction one of 10, the disassembled instruction one of 32, and the
//! registers follow.

use crate::bytes::{high_byte, lemma_page, low_byte, make_word, word};
use crate::cpu::machine::Machine;
use crate::cpu::{offset_address, AddressingMode, Mem, CPU};
use crate::opcodes::{lookup, OpCode, Operation};
use vstd::prelude::*;
use vstd::string::*;

verus! {

// ----------------------------------------------------------------------
// What a line holds
// ----------------------------------------------------------------------

/// The upper-case hexadecimal digit for `n`, which is below 16.
pub open spec fn hex_digit(n: u8) -> char {
    match n {
        0 => '0',
        1 => '1',
        2 => '2',
        3 => '3',
        4 => '4',
        5 => '5',
        6 => '6',
        7 => '7',
        8 => '8',
        9 => '9',
        10 => 'A',
        11 => 'B',
        12 => 'C',
        13 => 'D',
        14 => 'E',
        _ => 'F',
    }
}

/// The two hexadecimal digits of `value`.
pub open spec fn hex_u8(value: u8) -> Seq<char> {
    seq![hex_digit(value / 16), hex_digit(value % 16)]
}

/// The four hexadecimal digits of `value`.
pub open spec fn hex_u16(value: u16) -> Seq<char> {
    hex_u8(high_byte(value)) + hex_u8(low_byte(value))
}

/// `count` spaces.
pub open spec fn spaces(count: nat) -> Seq<char> {
    Seq::new(count, |i: int| ' ')
}

/// `text`, with spaces behind it up to `width` characters. A longer text
/// stays as it is.
pub open spec fn padded(text: Seq<char>, width: nat) -> Seq<char> {
    if text.len() >= width {
        text
    } else {
        text + spaces((width - text.len()) as nat)
    }
}

/// The bytes of the instruction at `pc` that is `len` bytes long.
pub open spec fn instruction_bytes(machine: Machine, len: u8) -> Seq<u8> {
    Seq::new(len as nat, |i: int| machine.read(machine.pc.wrapping_add(i as u16)))
}

/// Each byte as two hexadecimal digits and a space.
pub open spec fn instruction_text(bytes: Seq<u8>) -> Seq<char>
    decreases bytes.len(),
{
    if bytes.len() == 0 {
        Seq::empty()
    } else {
        instruction_text(bytes.drop_last()) + hex_u8(bytes.last()) + " "@
    }
}

/// The registers: `A:10 X:02 Y:03 P:24 SP:FD`.
pub open spec fn register_text(machine: Machine) -> Seq<char> {
    "A:"@ + hex_u8(machine.a) + " X:"@ + hex_u8(machine.x) + " Y:"@ + hex_u8(machine.y) + " P:"@
        + hex_u8(machine.p) + " SP:"@ + hex_u8(machine.sp)
}

/// The disassembled instruction `mnemonic` with `mode`, for a state whose
/// `pc` is at the operand.
///
/// | mode | text |
/// |------|------|
/// | immediate | `LDA #$10` |
/// | zero page | `LDA $20 = 00`: address and the byte there |
/// | zero page,X | `LDA $30,X @ B7 = 00`: operand, effective address, byte |
/// | absolute | `LDA $0400 = AA`; a JMP or JSR shows the target alone |
/// | absolute,X | `LDA $0400,X @ 0401 = AA` |
/// | indirect | `JMP ($0200) = DB7E`: pointer and target |
/// | (indirect,X) | `LDA ($80,X) @ 82 = 0300 = 5B`: operand, pointer, address, byte |
/// | (indirect),Y | `ORA ($33),Y = 0400 @ 0400 = AA`: operand, base, address, byte |
/// | relative | `BNE $C5F7`: the target of the branch |
/// | accumulator | `LSR A` |
/// | implied | `NOP` |
pub open spec fn asm_text(at_operand: Machine, mode: AddressingMode, mnemonic: Operation) -> Seq<
    char,
> {
    let operand = at_operand.read(at_operand.pc);
    let pointer = at_operand.read_u16(at_operand.pc);
    let address = at_operand.operand_address(mode);
    let value = at_operand.read(address);
    match mode {
        AddressingMode::Immediate => mnemonic.text() + " #$"@ + hex_u8(operand),
        AddressingMode::ZeroPage => mnemonic.text() + " $"@ + hex_u8(operand) + " = "@ + hex_u8(
            value,
        ),
        AddressingMode::ZeroPage_X => mnemonic.text() + " $"@ + hex_u8(operand) + ",X @ "@
            + hex_u8(operand.wrapping_add(at_operand.x)) + " = "@ + hex_u8(value),
        AddressingMode::ZeroPage_Y => mnemonic.text() + " $"@ + hex_u8(operand) + ",Y @ "@
            + hex_u8(operand.wrapping_add(at_operand.y)) + " = "@ + hex_u8(value),
        AddressingMode::Absolute => if mnemonic is JMP || mnemonic is JSR {
            mnemonic.text() + " $"@ + hex_u16(address)
        } else {
            mnemonic.text() + " $"@ + hex_u16(address) + " = "@ + hex_u8(value)
        },
        AddressingMode::Absolute_X => mnemonic.text() + " $"@ + hex_u16(pointer) + ",X @ "@
            + hex_u16(address) + " = "@ + hex_u8(value),
        AddressingMode::Absolute_Y => mnemonic.text() + " $"@ + hex_u16(pointer) + ",Y @ "@
            + hex_u16(address) + " = "@ + hex_u8(value),
        AddressingMode::Indirect => mnemonic.text() + " ($"@ + hex_u16(pointer) + ") = "@
            + hex_u16(address),
        AddressingMode::Indirect_X => mnemonic.text() + " ($"@ + hex_u8(operand) + ",X) @ "@
            + hex_u8(operand.wrapping_add(at_operand.x)) + " = "@ + hex_u16(address) + " = "@
            + hex_u8(value),
        AddressingMode::Indirect_Y => mnemonic.text() + " ($"@ + hex_u8(operand) + "),Y = "@
            + hex_u16(
            word(
                at_operand.read(operand as u16),
                at_operand.read(operand.wrapping_add(1) as u16),
            ),
        ) + " @ "@ + hex_u16(address) + " = "@ + hex_u8(value),
        AddressingMode::Relative => mnemonic.text() + " $"@ + hex_u16(address.wrapping_add(1)),
        AddressingMode::Accumulator => mnemonic.text() + " A"@,
        AddressingMode::Implicit => mnemonic.text(),
        AddressingMode::NoneAddressing => Seq::empty(),
    }
}

/// The line for the instruction `opcode` at `pc`.
pub open spec fn line(machine: Machine, opcode: OpCode) -> Seq<char> {
    padded(hex_u16(machine.pc), 6) + padded(
        instruction_text(instruction_bytes(machine, opcode.len)),
        10,
    ) + padded(asm_text(machine.fetched(), opcode.mode, opcode.mnemonic), 32) + register_text(
        machine,
    )
}

// ----------------------------------------------------------------------
// Writing a line
// ----------------------------------------------------------------------

/// The hexadecimal digit for `n`.
fn hex_digit_str(n: u8) -> (digit: &'static str)
    requires
        n < 16,
    ensures
        digit@ == seq![hex_digit(n)],
{
    proof {
        reveal_strlit("0");
        reveal_strlit("1");
        reveal_strlit("2");
        reveal_strlit("3");
        reveal_strlit("4");
        reveal_strlit("5");
        reveal_strlit("6");
        reveal_strlit("7");
        reveal_strlit("8");
        reveal_strlit("9");
        reveal_strlit("A");
        reveal_strlit("B");
        reveal_strlit("C");
        reveal_strlit("D");
        reveal_strlit("E");
        reveal_strlit("F");
    }
    let digit = match n {
        0 => "0",
        1 => "1",
        2 => "2",
        3 => "3",
        4 => "4",
        5 => "5",
        6 => "6",
        7 => "7",
        8 => "8",
        9 => "9",
        10 => "A",
        11 => "B",
        12 => "C",
        13 => "D",
        14 => "E",
        _ => "F",
    };
    assert(digit@ =~= seq![hex_digit(n)]);
    digit
}

/// Appends the two hexadecimal digits of `value`.
fn push_hex_u8(text: &mut String, value: u8)
    ensures
        final(text)@ == old(text)@ + hex_u8(value),
{
    text.append(hex_digit_str(value / 16));
    text.append(hex_digit_str(value % 16));
    assert(text@ =~= old(text)@ + hex_u8(value));
}

/// Appends the four hexadecimal digits of `value`.
fn push_hex_u16(text: &mut String, value: u16)
    ensures
        final(text)@ == old(text)@ + hex_u16(value),
{
    push_hex_u8(text, (value / 256) as u8);
    push_hex_u8(text, (value % 256) as u8);
    assert(text@ =~= old(text)@ + hex_u16(value));
}

/// `text`, with spaces behind it up to `width` characters.
fn pad_right(text: String, width: usize) -> (column: String)
    ensures
        column@ == padded(text@, width as nat),
{
    let mut column = text;
    let len = column.as_str().unicode_len();
    let mut i: usize = len;
    while i < width
        invariant
            len == text@.len(),
            len <= i,
            len >= width ==> i == len,
            len < width ==> i <= width,
            column@ == text@ + spaces((i - len) as nat),
        decreases width - i,
    {
        proof {
            reveal_strlit(" ");
        }
        column.append(" ");
        i = i + 1;
        assert(column@ =~= text@ + spaces((i - len) as nat));
    }
    assert(text@ + spaces(0) =~= text@);
    column
}

/// The text that starts with the letters of `mnemonic`.
fn mnemonic_text(mnemonic: Operation) -> (text: String)
    ensures
        text@ == mnemonic.text(),
{
    mnemonic.name().to_string()
}

/// One line of trace for the instruction at the program counter of `cpu`.
///
/// The CPU is read, also through the bus, and left as it is.
pub fn trace(cpu: &CPU) -> (text: String)
    requires
        cpu.wf(),
        cpu@.opcode() is Some,
    ensures
        text@ == line(cpu@, cpu@.opcode().unwrap()),
{
    let mut formatted_program_counter = String::new();
    push_hex_u16(&mut formatted_program_counter, cpu.program_counter);

    let current_code = cpu.mem_read(cpu.program_counter);
    let current_opcode = lookup(current_code).unwrap();

    let instruction = fetch_instruction_bytes(cpu, current_opcode, cpu.program_counter);

    let formatted_instruction = format_instruction(&instruction);

    let asm_opcode = format_asm_opcode(
        cpu,
        cpu.program_counter.wrapping_add(1),
        current_opcode.mode,
        current_opcode.mnemonic,
    );

    let register_info = format_register(cpu);

    let mut text = pad_right(formatted_program_counter, 6);
    text.append(pad_right(formatted_instruction, 10).as_str());
    text.append(pad_right(asm_opcode, 32).as_str());
    text.append(register_info.as_str());
    assert(cpu@.at(cpu@.pc) == cpu@);
    text
}

/// The bytes of the instruction `opcode` at `program_counter`.
fn fetch_instruction_bytes(cpu: &CPU, opcode: OpCode, program_counter: u16) -> (bytes: Vec<u8>)
    requires
        cpu.wf(),
    ensures
        bytes@ == instruction_bytes(cpu@.at(program_counter), opcode.len),
{
    let mut fetched: Vec<u8> = Vec::new();

    let mut i: u8 = 0;
    while i < opcode.len
        invariant
            cpu.wf(),
            i <= opcode.len,
            fetched@ == instruction_bytes(cpu@.at(program_counter), i),
        decreases opcode.len - i,
    {
        let byte = cpu.mem_read(program_counter.wrapping_add(i as u16));
        fetched.push(byte);
        i = i + 1;
        assert(fetched@ =~= instruction_bytes(cpu@.at(program_counter), i));
    }

    fetched
}

/// Each byte as two hexadecimal digits and a space.
fn format_instruction(instruction_bytes: &Vec<u8>) -> (text: String)
    ensures
        text@ == instruction_text(instruction_bytes@),
{
    let mut text = String::new();
    let mut i: usize = 0;
    while i < instruction_bytes.len()
        invariant
            i <= instruction_bytes.len(),
            text@ == instruction_text(instruction_bytes@.subrange(0, i as int)),
        decreases instruction_bytes.len() - i,
    {
        push_hex_u8(&mut text, instruction_bytes[i]);
        text.append(" ");
        i = i + 1;
        assert(instruction_bytes@.subrange(0, i as int).drop_last()
            =~= instruction_bytes@.subrange(0, i - 1));
    }
    assert(instruction_bytes@.subrange(0, i as int) =~= instruction_bytes@);
    text
}

/// The registers: `A:10 X:02 Y:03 P:24 SP:FD`.
fn format_register(cpu: &CPU) -> (text: String)
    ensures
        text@ == register_text(cpu@),
{
    let mut text = "A:".to_string();
    push_hex_u8(&mut text, cpu.accumulator);
    text.append(" X:");
    push_hex_u8(&mut text, cpu.index_register_x);
    text.append(" Y:");
    push_hex_u8(&mut text, cpu.index_register_y);
    text.append(" P:");
    push_hex_u8(&mut text, cpu.status.bits());
    text.append(" SP:");
    push_hex_u8(&mut text, cpu.stack_pointer);
    text
}

/// The disassembled instruction `mnemonic` with `mode`, whose operand
/// stands at `program_counter`.
fn format_asm_opcode(
    cpu: &CPU,
    program_counter: u16,
    mode: AddressingMode,
    mnemonic: Operation,
) -> (text: String)
    requires
        cpu.wf(),
    ensures
        text@ == asm_text(cpu@.at(program_counter), mode, mnemonic),
{
    match mode {
        AddressingMode::Immediate => format_imm_mode_asm(cpu, program_counter, mnemonic),
        AddressingMode::ZeroPage => format_zero_mode_asm(cpu, program_counter, mnemonic),
        AddressingMode::ZeroPage_X => format_zero_x_mode_asm(cpu, program_counter, mnemonic),
        AddressingMode::ZeroPage_Y => format_zero_y_mode_asm(cpu, program_counter, mnemonic),
        AddressingMode::Absolute => format_absolute_mode_asm(cpu, program_counter, mnemonic),
        AddressingMode::Absolute_X => format_absolute_x_mode_asm(cpu, program_counter, mnemonic),
        AddressingMode::Absolute_Y => format_absolute_y_mode_asm(cpu, program_counter, mnemonic),
        AddressingMode::Indirect => format_indirect_mode_asm(cpu, program_counter, mnemonic),
        AddressingMode::Indirect_X => format_indirect_x_mode_asm(cpu, program_counter, mnemonic),
        AddressingMode::Indirect_Y => format_indirect_y_mode_asm(cpu, program_counter, mnemonic),
        AddressingMode::NoneAddressing => String::new(),
        AddressingMode::Relative => format_relative_mode_asm(cpu, mnemonic, program_counter),
        AddressingMode::Accumulator => {
            let mut text = mnemonic_text(mnemonic);
            text.append(" A");
            text
        },
        AddressingMode::Implicit => mnemonic_text(mnemonic),
    }
}

fn format_imm_mode_asm(cpu: &CPU, program_counter: u16, mnemonic: Operation) -> (text: String)
    requires
        cpu.wf(),
    ensures
        text@ == asm_text(cpu@.at(program_counter), AddressingMode::Immediate, mnemonic),
{
    let memory_value = cpu.mem_read(program_counter);

    let mut text = mnemonic_text(mnemonic);
    text.append(" #$");
    push_hex_u8(&mut text, memory_value);
    text
}

fn format_zero_mode_asm(cpu: &CPU, program_counter: u16, mnemonic: Operation) -> (text: String)
    requires
        cpu.wf(),
    ensures
        text@ == asm_text(cpu@.at(program_counter), AddressingMode::ZeroPage, mnemonic),
{
    let target_addr = cpu.mem_read(program_counter);
    let memory_value = cpu.mem_read(target_addr as u16);

    let mut text = mnemonic_text(mnemonic);
    text.append(" $");
    push_hex_u8(&mut text, target_addr);
    text.append(" = ");
    push_hex_u8(&mut text, memory_value);
    text
}

fn format_zero_x_mode_asm(cpu: &CPU, program_counter: u16, mnemonic: Operation) -> (text: String)
    requires
        cpu.wf(),
    ensures
        text@ == asm_text(cpu@.at(program_counter), AddressingMode::ZeroPage_X, mnemonic),
{
    let addr = cpu.mem_read(program_counter);
    let target_addr = addr.wrapping_add(cpu.index_register_x);
    let memory_value = cpu.mem_read(target_addr as u16);

    let mut text = mnemonic_text(mnemonic);
    text.append(" $");
    push_hex_u8(&mut text, addr);
    text.append(",X @ ");
    push_hex_u8(&mut text, target_addr);
    text.append(" = ");
    push_hex_u8(&mut text, memory_value);
    text
}

fn format_zero_y_mode_asm(cpu: &CPU, program_counter: u16, mnemonic: Operation) -> (text: String)
    requires
        cpu.wf(),
    ensures
        text@ == asm_text(cpu@.at(program_counter), AddressingMode::ZeroPage_Y, mnemonic),
{
    let addr = cpu.mem_read(program_counter);
    let target_addr = addr.wrapping_add(cpu.index_register_y);
    let memory_value = cpu.mem_read(target_addr as u16);

    let mut text = mnemonic_text(mnemonic);
    text.append(" $");
    push_hex_u8(&mut text, addr);
    text.append(",Y @ ");
    push_hex_u8(&mut text, target_addr);
    text.append(" = ");
    push_hex_u8(&mut text, memory_value);
    text
}

fn format_absolute_mode_asm(cpu: &CPU, program_counter: u16, mnemonic: Operation) -> (text: String)
    requires
        cpu.wf(),
    ensures
        text@ == asm_text(cpu@.at(program_counter), AddressingMode::Absolute, mnemonic),
{
    let target_addr = cpu.mem_read_u16(program_counter);

    let mut text = mnemonic_text(mnemonic);
    text.append(" $");
    push_hex_u16(&mut text, target_addr);
    match mnemonic {
        Operation::JMP | Operation::JSR => {},
        _ => {
            let memory_value = cpu.mem_read(target_addr);
            text.append(" = ");
            push_hex_u8(&mut text, memory_value);
        },
    }
    text
}

fn format_absolute_x_mode_asm(cpu: &CPU, program_counter: u16, mnemonic: Operation) -> (text:
    String)
    requires
        cpu.wf(),
    ensures
        text@ == asm_text(cpu@.at(program_counter), AddressingMode::Absolute_X, mnemonic),
{
    let addr = cpu.mem_read_u16(program_counter);
    let target_addr = addr.wrapping_add(cpu.index_register_x as u16);
    let memory_value = cpu.mem_read(target_addr);

    let mut text = mnemonic_text(mnemonic);
    text.append(" $");
    push_hex_u16(&mut text, addr);
    text.append(",X @ ");
    push_hex_u16(&mut text, target_addr);
    text.append(" = ");
    push_hex_u8(&mut text, memory_value);
    text
}

fn format_absolute_y_mode_asm(cpu: &CPU, program_counter: u16, mnemonic: Operation) -> (text:
    String)
    requires
        cpu.wf(),
    ensures
        text@ == asm_text(cpu@.at(program_counter), AddressingMode::Absolute_Y, mnemonic),
{
    let addr = cpu.mem_read_u16(program_counter);
    let target_addr = addr.wrapping_add(cpu.index_register_y as u16);
    let memory_value = cpu.mem_read(target_addr);

    let mut text = mnemonic_text(mnemonic);
    text.append(" $");
    push_hex_u16(&mut text, addr);
    text.append(",Y @ ");
    push_hex_u16(&mut text, target_addr);
    text.append(" = ");
    push_hex_u8(&mut text, memory_value);
    text
}

const LOW_PAGE_END: u16 = 0x00FF;

const HIGH_PAGE_START: u16 = 0xFF00;

fn format_indirect_mode_asm(cpu: &CPU, program_counter: u16, mnemonic: Operation) -> (text: String)
    requires
        cpu.wf(),
    ensures
        text@ == asm_text(cpu@.at(program_counter), AddressingMode::Indirect, mnemonic),
{
    let addr = cpu.mem_read_u16(program_counter);
    proof {
        lemma_page(addr);
    }

    let target_addr = if addr & LOW_PAGE_END == LOW_PAGE_END {
        let lo = cpu.mem_read(addr);
        let hi = cpu.mem_read(addr & HIGH_PAGE_START);
        make_word(lo, hi)
    } else {
        cpu.mem_read_u16(addr)
    };

    let mut text = mnemonic_text(mnemonic);
    text.append(" ($");
    push_hex_u16(&mut text, addr);
    text.append(") = ");
    push_hex_u16(&mut text, target_addr);
    text
}

fn format_indirect_x_mode_asm(cpu: &CPU, program_counter: u16, mnemonic: Operation) -> (text:
    String)
    requires
        cpu.wf(),
    ensures
        text@ == asm_text(cpu@.at(program_counter), AddressingMode::Indirect_X, mnemonic),
{
    let base = cpu.mem_read(program_counter);
    let addr = base.wrapping_add(cpu.index_register_x);
    let lo = cpu.mem_read(addr as u16);
    let hi = cpu.mem_read(addr.wrapping_add(1) as u16);
    let target_addr = make_word(lo, hi);
    let memory_value = cpu.mem_read(target_addr);

    let mut text = mnemonic_text(mnemonic);
    text.append(" ($");
    push_hex_u8(&mut text, base);
    text.append(",X) @ ");
    push_hex_u8(&mut text, addr);
    text.append(" = ");
    push_hex_u16(&mut text, target_addr);
    text.append(" = ");
    push_hex_u8(&mut text, memory_value);
    text
}

fn format_indirect_y_mode_asm(cpu: &CPU, program_counter: u16, mnemonic: Operation) -> (text:
    String)
    requires
        cpu.wf(),
    ensures
        text@ == asm_text(cpu@.at(program_counter), AddressingMode::Indirect_Y, mnemonic),
{
    let base = cpu.mem_read(program_counter);
    let lo = cpu.mem_read(base as u16);
    let hi = cpu.mem_read(base.wrapping_add(1) as u16);
    let deref_base = make_word(lo, hi);
    let deref_addr = deref_base.wrapping_add(cpu.index_register_y as u16);
    let memory_value = cpu.mem_read(deref_addr);

    let mut text = mnemonic_text(mnemonic);
    text.append(" ($");
    push_hex_u8(&mut text, base);
    text.append("),Y = ");
    push_hex_u16(&mut text, deref_base);
    text.append(" @ ");
    push_hex_u16(&mut text, deref_addr);
    text.append(" = ");
    push_hex_u8(&mut text, memory_value);
    text
}

fn format_relative_mode_asm(cpu: &CPU, mnemonic: Operation, program_counter: u16) -> (text: String)
    requires
        cpu.wf(),
    ensures
        text@ == asm_text(cpu@.at(program_counter), AddressingMode::Relative, mnemonic),
{
    let base = cpu.mem_read(program_counter);
    let addr = offset_address(program_counter, base);
    let target_addr = addr.wrapping_add(1);

    let mut text = mnemonic_text(mnemonic);
    text.append(" $");
    push_hex_u16(&mut text, target_addr);
    text
}

} // verus!
