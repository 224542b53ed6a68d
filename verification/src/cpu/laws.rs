//! What holds of the instructions, whatever the state.

use crate::bytes::word;
use crate::cpu::machine::{
    reset_vector_index, rotated_left, rotated_right, Machine, PROGRAM_START,
};
use crate::cpu::status::{lemma_carry_bit, lemma_with_flag, ProcessorStatus};
use crate::cpu::{AddressingMode, DecodeError, Stop};
use crate::opcodes::{lemma_rows_are_consistent, OpCode, Operation};
use vstd::prelude::*;

verus! {

// ----------------------------------------------------------------------
// Flags
// ----------------------------------------------------------------------

/// Taking Z and N from a byte sets exactly these two flags as the byte
/// says, and keeps the others.
pub proof fn lemma_zn_bits(p: u8, result: u8)
    by (bit_vector)
    ensures
        ({
            let z = if result == 0 {
                p | 0b0000_0010u8
            } else {
                p & !0b0000_0010u8
            };
            let zn = if result & 0x80 != 0 {
                z | 0b1000_0000u8
            } else {
                z & !0b1000_0000u8
            };
            &&& (zn & 0b0000_0010 != 0) == (result == 0)
            &&& (zn & 0b1000_0000 != 0) == (result & 0x80 != 0)
            &&& zn & 0b0000_0001 == p & 0b0000_0001
            &&& zn & 0b0000_0100 == p & 0b0000_0100
            &&& zn & 0b0000_1000 == p & 0b0000_1000
            &&& zn & 0b0001_0000 == p & 0b0001_0000
            &&& zn & 0b0010_0000 == p & 0b0010_0000
            &&& zn & 0b0100_0000 == p & 0b0100_0000
        }),
{
}

/// After Z and N were taken from `result`, Z says that `result` is zero and
/// N is bit 7 of `result`.
pub proof fn law_zero_and_negative(machine: Machine, result: u8)
    ensures
        machine.with_zn(result).flag(ProcessorStatus::ZERO) == (result == 0),
        machine.with_zn(result).flag(ProcessorStatus::NEGATIVE) == (result & 0x80 != 0),
        machine.with_zn(result) == (Machine { p: machine.with_zn(result).p, ..machine }),
        machine.with_zn(result).carry() == machine.carry(),
        machine.with_zn(result).flag(ProcessorStatus::CARRY) == machine.flag(
            ProcessorStatus::CARRY,
        ),
        machine.with_zn(result).flag(ProcessorStatus::OVERFLOW) == machine.flag(
            ProcessorStatus::OVERFLOW,
        ),
{
    lemma_zn_bits(machine.p, result);
}

/// After a load, Z says that the loaded register is zero and N is its bit
/// 7.
pub proof fn law_load_sets_zero_and_negative(machine: Machine, mode: AddressingMode)
    ensures
        machine.lda(mode).flag(ProcessorStatus::ZERO) == (machine.lda(mode).a == 0),
        machine.lda(mode).flag(ProcessorStatus::NEGATIVE) == (machine.lda(mode).a & 0x80 != 0),
        machine.ldx(mode).flag(ProcessorStatus::ZERO) == (machine.ldx(mode).x == 0),
        machine.ldx(mode).flag(ProcessorStatus::NEGATIVE) == (machine.ldx(mode).x & 0x80 != 0),
        machine.ldy(mode).flag(ProcessorStatus::ZERO) == (machine.ldy(mode).y == 0),
        machine.ldy(mode).flag(ProcessorStatus::NEGATIVE) == (machine.ldy(mode).y & 0x80 != 0),
{
    let value = machine.operand(mode);
    law_zero_and_negative(Machine { a: value, ..machine }, value);
    law_zero_and_negative(Machine { x: value, ..machine }, value);
    law_zero_and_negative(Machine { y: value, ..machine }, value);
}

/// After a transfer into A, X or Y, Z says that the target register is zero
/// and N is its bit 7. TXS touches no flag.
pub proof fn law_transfer_sets_zero_and_negative(machine: Machine)
    ensures
        machine.tax().flag(ProcessorStatus::ZERO) == (machine.tax().x == 0),
        machine.tax().flag(ProcessorStatus::NEGATIVE) == (machine.tax().x & 0x80 != 0),
        machine.tay().flag(ProcessorStatus::ZERO) == (machine.tay().y == 0),
        machine.tay().flag(ProcessorStatus::NEGATIVE) == (machine.tay().y & 0x80 != 0),
        machine.txa().flag(ProcessorStatus::ZERO) == (machine.txa().a == 0),
        machine.txa().flag(ProcessorStatus::NEGATIVE) == (machine.txa().a & 0x80 != 0),
        machine.tya().flag(ProcessorStatus::ZERO) == (machine.tya().a == 0),
        machine.tya().flag(ProcessorStatus::NEGATIVE) == (machine.tya().a & 0x80 != 0),
        machine.tsx().flag(ProcessorStatus::ZERO) == (machine.tsx().x == 0),
        machine.tsx().flag(ProcessorStatus::NEGATIVE) == (machine.tsx().x & 0x80 != 0),
        machine.txs().p == machine.p,
{
    law_zero_and_negative(Machine { x: machine.a, ..machine }, machine.a);
    law_zero_and_negative(Machine { y: machine.a, ..machine }, machine.a);
    law_zero_and_negative(Machine { a: machine.x, ..machine }, machine.x);
    law_zero_and_negative(Machine { a: machine.y, ..machine }, machine.y);
    law_zero_and_negative(Machine { x: machine.sp, ..machine }, machine.sp);
}

/// After an increment or a decrement of X or Y, and after PLA, Z says that
/// the register is zero and N is its bit 7.
pub proof fn law_register_update_sets_zero_and_negative(machine: Machine)
    ensures
        machine.inx().flag(ProcessorStatus::ZERO) == (machine.inx().x == 0),
        machine.inx().flag(ProcessorStatus::NEGATIVE) == (machine.inx().x & 0x80 != 0),
        machine.iny().flag(ProcessorStatus::ZERO) == (machine.iny().y == 0),
        machine.iny().flag(ProcessorStatus::NEGATIVE) == (machine.iny().y & 0x80 != 0),
        machine.dex().flag(ProcessorStatus::ZERO) == (machine.dex().x == 0),
        machine.dex().flag(ProcessorStatus::NEGATIVE) == (machine.dex().x & 0x80 != 0),
        machine.dey().flag(ProcessorStatus::ZERO) == (machine.dey().y == 0),
        machine.dey().flag(ProcessorStatus::NEGATIVE) == (machine.dey().y & 0x80 != 0),
        machine.pla().flag(ProcessorStatus::ZERO) == (machine.pla().a == 0),
        machine.pla().flag(ProcessorStatus::NEGATIVE) == (machine.pla().a & 0x80 != 0),
{
    let (x_up, x_down) = (machine.x.wrapping_add(1), machine.x.wrapping_sub(1));
    let (y_up, y_down) = (machine.y.wrapping_add(1), machine.y.wrapping_sub(1));
    law_zero_and_negative(Machine { x: x_up, ..machine }, x_up);
    law_zero_and_negative(Machine { y: y_up, ..machine }, y_up);
    law_zero_and_negative(Machine { x: x_down, ..machine }, x_down);
    law_zero_and_negative(Machine { y: y_down, ..machine }, y_down);
    law_zero_and_negative(Machine { a: machine.top(), ..machine.dropped() }, machine.top());
}

/// After AND, EOR, ORA, ADC and SBC, Z says that A is zero and N is bit 7
/// of A.
pub proof fn law_accumulator_result_sets_zero_and_negative(machine: Machine, mode: AddressingMode)
    ensures
        machine.and(mode).flag(ProcessorStatus::ZERO) == (machine.and(mode).a == 0),
        machine.and(mode).flag(ProcessorStatus::NEGATIVE) == (machine.and(mode).a & 0x80 != 0),
        machine.eor(mode).flag(ProcessorStatus::ZERO) == (machine.eor(mode).a == 0),
        machine.eor(mode).flag(ProcessorStatus::NEGATIVE) == (machine.eor(mode).a & 0x80 != 0),
        machine.ora(mode).flag(ProcessorStatus::ZERO) == (machine.ora(mode).a == 0),
        machine.ora(mode).flag(ProcessorStatus::NEGATIVE) == (machine.ora(mode).a & 0x80 != 0),
        machine.adc(mode).flag(ProcessorStatus::ZERO) == (machine.adc(mode).a == 0),
        machine.adc(mode).flag(ProcessorStatus::NEGATIVE) == (machine.adc(mode).a & 0x80 != 0),
        machine.sbc(mode).flag(ProcessorStatus::ZERO) == (machine.sbc(mode).a == 0),
        machine.sbc(mode).flag(ProcessorStatus::NEGATIVE) == (machine.sbc(mode).a & 0x80 != 0),
{
    let value = machine.operand(mode);
    law_zero_and_negative(Machine { a: machine.a & value, ..machine }, machine.a & value);
    law_zero_and_negative(Machine { a: machine.a ^ value, ..machine }, machine.a ^ value);
    law_zero_and_negative(Machine { a: machine.a | value, ..machine }, machine.a | value);
    let added = machine.add(value);
    let sum = machine.a + value + machine.carry();
    law_zero_and_negative(
        Machine { a: added.a, ..machine }.with_flag(ProcessorStatus::CARRY, sum > 0xFF).with_flag(
            ProcessorStatus::OVERFLOW,
            (machine.a ^ value) & 0x80 == 0 && (machine.a ^ added.a) & 0x80 != 0,
        ),
        added.a,
    );
    let subtracted = machine.subtract(value);
    let difference = machine.a - value - (1 - machine.carry());
    law_zero_and_negative(
        Machine { a: subtracted.a, ..machine }.with_flag(
            ProcessorStatus::CARRY,
            difference >= 0,
        ).with_flag(
            ProcessorStatus::OVERFLOW,
            (machine.a ^ value) & 0x80 != 0 && (machine.a ^ subtracted.a) & 0x80 != 0,
        ),
        subtracted.a,
    );
}

// ----------------------------------------------------------------------
// Arithmetic
// ----------------------------------------------------------------------

/// Setting or clearing the carry makes the carry bit 1 or 0.
pub proof fn lemma_carry_after_update(machine: Machine, on: bool)
    ensures
        machine.with_flag(ProcessorStatus::CARRY, on).carry() == (if on {
            1u8
        } else {
            0u8
        }),
        machine.with_flag(ProcessorStatus::CARRY, on).flag(ProcessorStatus::CARRY) == on,
        machine.flag(ProcessorStatus::CARRY) == (machine.carry() == 1),
        machine.carry() == 0 || machine.carry() == 1,
{
    lemma_with_flag(machine.p, ProcessorStatus::CARRY, 0);
    lemma_carry_bit(machine.p);
}

/// Adding a byte with a carry and then taking the same byte away with the
/// borrow that matches that carry gives A back: the carry that goes into
/// the subtraction is the complement of the one that went into the
/// addition.
pub proof fn law_add_then_subtract(machine: Machine, value: u8)
    ensures
        machine.add(value).with_flag(
            ProcessorStatus::CARRY,
            !machine.flag(ProcessorStatus::CARRY),
        ).subtract(value).a == machine.a,
{
    lemma_carry_after_update(machine, true);
    lemma_carry_after_update(machine.add(value), !machine.flag(ProcessorStatus::CARRY));
}

/// ADC and then SBC of the same operand, with the carry between them set
/// to the complement of the carry before the ADC, give A back. The operand
/// is one in memory.
pub proof fn law_adc_then_sbc(machine: Machine, mode: AddressingMode)
    requires
        mode !is Accumulator,
    ensures
        machine.adc(mode).with_flag(
            ProcessorStatus::CARRY,
            !machine.flag(ProcessorStatus::CARRY),
        ).sbc(mode).a == machine.a,
{
    let value = machine.operand(mode);
    let between = machine.adc(mode).with_flag(
        ProcessorStatus::CARRY,
        !machine.flag(ProcessorStatus::CARRY),
    );
    assert(between.mem == machine.mem);
    assert(between.operand_address(mode) == machine.operand_address(mode));
    assert(between.operand(mode) == value);
    law_add_then_subtract(machine, value);
}

/// Rotating a byte to the left and then to the right, with the carry that
/// the first rotation left, gives the byte back, and the bit that leaves in
/// the second rotation is the carry that went into the first.
pub proof fn law_rotate_left_then_right(value: u8, carry: u8)
    by (bit_vector)
    requires
        carry == 0 || carry == 1,
    ensures
        rotated_right(
            rotated_left(value, carry),
            if value & 0x80 != 0 {
                1u8
            } else {
                0u8
            },
        ) == value,
        (rotated_left(value, carry) & 0x01 != 0) == (carry == 1),
{
}

/// ROL and then ROR of the accumulator give back the accumulator and the
/// carry flag.
pub proof fn law_rol_then_ror_accumulator(machine: Machine)
    ensures
        machine.rol(AddressingMode::Accumulator).ror(AddressingMode::Accumulator).a == machine.a,
        machine.rol(AddressingMode::Accumulator).ror(AddressingMode::Accumulator).flag(
            ProcessorStatus::CARRY,
        ) == machine.flag(ProcessorStatus::CARRY),
{
    let mode = AddressingMode::Accumulator;
    let left = rotated_left(machine.a, machine.carry());
    let shifted = Machine { a: left, ..machine }.with_flag(
        ProcessorStatus::CARRY,
        machine.a & 0x80 != 0,
    );
    lemma_carry_after_update(machine, true);
    lemma_carry_after_update(Machine { a: left, ..machine }, machine.a & 0x80 != 0);
    law_zero_and_negative(shifted, left);
    let rolled = machine.rol(mode);
    assert(rolled == shifted.with_zn(left));
    assert(rolled.a == left);
    assert(rolled.carry() == (if machine.a & 0x80 != 0 {
        1u8
    } else {
        0u8
    }));
    law_rotate_left_then_right(machine.a, machine.carry());
    let right = rotated_right(left, rolled.carry());
    assert(right == machine.a);
    let back = Machine { a: right, ..rolled }.with_flag(ProcessorStatus::CARRY, left & 0x01 != 0);
    lemma_carry_after_update(Machine { a: right, ..rolled }, left & 0x01 != 0);
    law_zero_and_negative(back, right);
    assert(rolled.ror(mode) == back.with_zn(right));
}

/// ROL and then ROR of a byte of work RAM give back the byte and the carry
/// flag, where both instructions find the byte at the same address.
pub proof fn law_rol_then_ror_memory(machine: Machine, mode: AddressingMode)
    requires
        machine.wf(),
        mode !is Accumulator,
        machine.operand_address(mode) < 0x2000,
        machine.rol(mode).operand_address(mode) == machine.operand_address(mode),
    ensures
        machine.rol(mode).ror(mode).read(machine.operand_address(mode)) == machine.read(
            machine.operand_address(mode),
        ),
        machine.rol(mode).ror(mode).flag(ProcessorStatus::CARRY) == machine.flag(
            ProcessorStatus::CARRY,
        ),
{
    let address = machine.operand_address(mode);
    let value = machine.read(address);
    let left = rotated_left(value, machine.carry());
    let stored = machine.write(address, left);
    let shifted = stored.with_flag(ProcessorStatus::CARRY, value & 0x80 != 0);
    lemma_carry_after_update(machine, true);
    lemma_carry_after_update(stored, value & 0x80 != 0);
    law_zero_and_negative(shifted, left);
    let rolled = machine.rol(mode);
    assert(rolled == shifted.with_zn(left));
    assert(rolled.read(address) == left);
    law_rotate_left_then_right(value, machine.carry());
    let right = rotated_right(left, rolled.carry());
    assert(right == value);
    let back = rolled.write(address, right).with_flag(ProcessorStatus::CARRY, left & 0x01 != 0);
    lemma_carry_after_update(rolled.write(address, right), left & 0x01 != 0);
    law_zero_and_negative(back, right);
    assert(rolled.ror(mode) == back.with_zn(right));
}

// ----------------------------------------------------------------------
// Compares
// ----------------------------------------------------------------------

/// A compare sets C exactly where the register is not below the operand,
/// Z exactly where the two are equal, and N to bit 7 of their difference.
pub proof fn law_compare(machine: Machine, mode: AddressingMode, register: u8)
    ensures
        machine.compare(mode, register).flag(ProcessorStatus::CARRY) == (register
            >= machine.operand(mode)),
        machine.compare(mode, register).flag(ProcessorStatus::ZERO) == (register
            == machine.operand(mode)),
        machine.compare(mode, register).flag(ProcessorStatus::NEGATIVE) == (register.wrapping_sub(
            machine.operand(mode),
        ) & 0x80 != 0),
        machine.compare(mode, register) == (Machine {
            p: machine.compare(mode, register).p,
            ..machine
        }),
{
    let value = machine.operand(mode);
    lemma_carry_after_update(machine, register >= value);
    law_zero_and_negative(
        machine.with_flag(ProcessorStatus::CARRY, register >= value),
        register.wrapping_sub(value),
    );
}

/// CMP, CPX and CPY compare A, X and Y: C says that the register is not
/// below the operand, Z that the two are equal.
pub proof fn law_compare_instructions(machine: Machine, mode: AddressingMode)
    ensures
        machine.cmp(mode).flag(ProcessorStatus::CARRY) == (machine.a >= machine.operand(mode)),
        machine.cmp(mode).flag(ProcessorStatus::ZERO) == (machine.a == machine.operand(mode)),
        machine.cpx(mode).flag(ProcessorStatus::CARRY) == (machine.x >= machine.operand(mode)),
        machine.cpx(mode).flag(ProcessorStatus::ZERO) == (machine.x == machine.operand(mode)),
        machine.cpy(mode).flag(ProcessorStatus::CARRY) == (machine.y >= machine.operand(mode)),
        machine.cpy(mode).flag(ProcessorStatus::ZERO) == (machine.y == machine.operand(mode)),
{
    law_compare(machine, mode, machine.a);
    law_compare(machine, mode, machine.x);
    law_compare(machine, mode, machine.y);
}

// ----------------------------------------------------------------------
// Stack
// ----------------------------------------------------------------------

/// A pull gives what the last push wrote, and leaves the stack pointer
/// where it was before the push.
pub proof fn law_push_then_pull(machine: Machine, data: u8)
    requires
        machine.wf(),
    ensures
        machine.push(data).top() == data,
        machine.push(data).dropped().sp == machine.sp,
        machine.push(data).wf(),
{
}

/// PHA and then PLA leave A and the stack pointer as they were.
pub proof fn law_pha_then_pla(machine: Machine)
    requires
        machine.wf(),
    ensures
        machine.pha().pla().a == machine.a,
        machine.pha().pla().sp == machine.sp,
{
    law_push_then_pull(machine, machine.a);
}

/// The state after `count` PHA in a row.
pub open spec fn pha_times(machine: Machine, count: nat) -> Machine
    decreases count,
{
    if count == 0 {
        machine
    } else {
        pha_times(machine.pha(), (count - 1) as nat)
    }
}

/// The state after `count` PLA in a row.
pub open spec fn pla_times(machine: Machine, count: nat) -> Machine
    decreases count,
{
    if count == 0 {
        machine
    } else {
        pla_times(machine.pla(), (count - 1) as nat)
    }
}

/// `count` PHA move the stack pointer down by `count` within the stack
/// page, and keep the memory usable.
pub proof fn lemma_pha_times(machine: Machine, count: nat)
    requires
        machine.wf(),
    ensures
        pha_times(machine, count).sp == (machine.sp - count) % 0x100,
        pha_times(machine, count).wf(),
    decreases count,
{
    if count > 0 {
        lemma_pha_times(machine.pha(), (count - 1) as nat);
    }
}

/// `count` PLA move the stack pointer up by `count` within the stack page.
pub proof fn lemma_pla_times(machine: Machine, count: nat)
    ensures
        pla_times(machine, count).sp == (machine.sp + count) % 0x100,
    decreases count,
{
    if count > 0 {
        lemma_pla_times(machine.pla(), (count - 1) as nat);
    }
}

/// After as many PLA as PHA before them, the stack pointer is where it
/// was.
pub proof fn law_stack_pointer_returns(machine: Machine, count: nat)
    requires
        machine.wf(),
    ensures
        pla_times(pha_times(machine, count), count).sp == machine.sp,
{
    lemma_pha_times(machine, count);
    lemma_pla_times(pha_times(machine, count), count);
}

/// JSR and then RTS leave the stack pointer where it was and the program
/// counter behind the JSR instruction, which is `len` bytes long and whose
/// operand the program counter was at.
pub proof fn law_jsr_then_rts(machine: Machine, mode: AddressingMode, len: u8)
    requires
        machine.wf(),
    ensures
        machine.jsr(mode, len).rts().sp == machine.sp,
        machine.jsr(mode, len).rts().pc == machine.pc.wrapping_add(len as u16).wrapping_sub(1),
{
    let return_address = machine.pc.wrapping_add(len as u16).wrapping_sub(2);
    let pushed = machine.push_u16(return_address);
    let called = machine.jsr(mode, len);
    assert(called.mem == pushed.mem);
    assert(called.sp == pushed.sp);
    assert(called.top_u16() == return_address);
}

/// The state after `count` JSR in a row, each where the one before it
/// jumped to.
pub open spec fn jsr_times(machine: Machine, mode: AddressingMode, len: u8, count: nat) -> Machine
    decreases count,
{
    if count == 0 {
        machine
    } else {
        jsr_times(machine.jsr(mode, len), mode, len, (count - 1) as nat)
    }
}

/// The state after `count` RTS in a row.
pub open spec fn rts_times(machine: Machine, count: nat) -> Machine
    decreases count,
{
    if count == 0 {
        machine
    } else {
        rts_times(machine.rts(), (count - 1) as nat)
    }
}

/// `count` JSR move the stack pointer down by two bytes each.
pub proof fn lemma_jsr_times(machine: Machine, mode: AddressingMode, len: u8, count: nat)
    ensures
        jsr_times(machine, mode, len, count).sp == (machine.sp - 2 * count) % 0x100,
    decreases count,
{
    if count > 0 {
        lemma_jsr_times(machine.jsr(mode, len), mode, len, (count - 1) as nat);
    }
}

/// `count` RTS move the stack pointer up by two bytes each.
pub proof fn lemma_rts_times(machine: Machine, count: nat)
    ensures
        rts_times(machine, count).sp == (machine.sp + 2 * count) % 0x100,
    decreases count,
{
    if count > 0 {
        lemma_rts_times(machine.rts(), (count - 1) as nat);
    }
}

/// After as many RTS as JSR before them, the stack pointer is where it
/// was.
pub proof fn law_stack_pointer_returns_from_calls(
    machine: Machine,
    mode: AddressingMode,
    len: u8,
    count: nat,
)
    ensures
        rts_times(jsr_times(machine, mode, len, count), count).sp == machine.sp,
{
    lemma_jsr_times(machine, mode, len, count);
    lemma_rts_times(jsr_times(machine, mode, len, count), count);
}

// ----------------------------------------------------------------------
// Jumps
// ----------------------------------------------------------------------

/// An indirect jump through a pointer that is the last byte of its page
/// takes the high byte of its target from the first byte of that page, not
/// from the next page. Through every other pointer it takes the word at
/// the pointer.
pub proof fn law_indirect_jump_stays_in_page(machine: Machine)
    ensures
        ({
            let pointer = machine.read_u16(machine.pc);
            let target = machine.jmp(AddressingMode::Indirect).pc;
            if pointer % 0x100 == 0xFF {
                target == word(machine.read(pointer), machine.read((pointer - 0xFF) as u16))
            } else {
                target == machine.read_u16(pointer)
            }
        }),
{
}

// ----------------------------------------------------------------------
// Load and reset
// ----------------------------------------------------------------------

/// After a load the CPU sees the program from `PROGRAM_START` on, up to
/// the reset vector, and a reset puts the program counter at its start.
/// Work RAM and registers are as before the load.
pub proof fn law_load_then_reset(machine: Machine, program: Seq<u8>)
    requires
        machine.wf(),
        program.len() <= 0x8000,
        program.len() <= machine.mem.rom.prg.len(),
    ensures
        machine.load(program).wf(),
        machine.load(program).reset().pc == PROGRAM_START,
        forall|i: int|
            0 <= i < program.len() && i < reset_vector_index(machine.mem.rom.prg.len())
                ==> #[trigger] machine.load(program).read((PROGRAM_START + i) as u16) == program[i],
        machine.load(program).mem.ram == machine.mem.ram,
        machine.load(program) == (Machine { mem: machine.load(program).mem, ..machine }),
{
    let loaded = machine.load(program);
    assert(loaded.read(0xFFFC) == 0x00);
    assert(loaded.read(0xFFFD) == 0x80);
}

// ----------------------------------------------------------------------
// The interpreter
// ----------------------------------------------------------------------

/// An instruction that leaves the program counter at its operand is
/// followed by the instruction behind it: the program counter moves by the
/// length of the instruction.
pub proof fn law_step_moves_past_the_instruction(machine: Machine)
    requires
        machine.opcode() is Some,
        !machine.at_break(),
        machine.fetched().execute(machine.opcode().unwrap()).pc == machine.fetched().pc,
    ensures
        machine.step().pc == machine.pc.wrapping_add(machine.opcode().unwrap().len as u16),
{
    lemma_rows_are_consistent(machine.read(machine.pc));
}

/// A BRK and an unknown opcode change nothing but the program counter, and
/// an unknown opcode not even that.
pub proof fn law_step_stops(machine: Machine)
    ensures
        machine.at_break() ==> machine.step() == machine.at(machine.pc.wrapping_add(1)),
        machine.opcode() is None ==> machine.step() == machine,
{
}

/// No write of an instruction reaches the cartridge, and the work RAM keeps
/// its size.
pub proof fn law_write_keeps_the_cartridge(machine: Machine, addr: u16, data: u8)
    requires
        machine.wf(),
    ensures
        machine.write(addr, data).mem.rom == machine.mem.rom,
        machine.write(addr, data).wf(),
{
}

/// `after` has the cartridge of `before`, and usable memory.
pub open spec fn keeps_cartridge(before: Machine, after: Machine) -> bool {
    after.mem.rom == before.mem.rom && after.wf()
}

/// Loads, stores and transfers keep the cartridge.
pub proof fn lemma_moves_keep_the_cartridge(machine: Machine, mode: AddressingMode)
    requires
        machine.wf(),
    ensures
        keeps_cartridge(machine, machine.lda(mode)),
        keeps_cartridge(machine, machine.ldx(mode)),
        keeps_cartridge(machine, machine.ldy(mode)),
        keeps_cartridge(machine, machine.sta(mode)),
        keeps_cartridge(machine, machine.stx(mode)),
        keeps_cartridge(machine, machine.sty(mode)),
        keeps_cartridge(machine, machine.lax(mode)),
        keeps_cartridge(machine, machine.sax(mode)),
        keeps_cartridge(machine, machine.tax()),
        keeps_cartridge(machine, machine.tay()),
        keeps_cartridge(machine, machine.txa()),
        keeps_cartridge(machine, machine.tya()),
        keeps_cartridge(machine, machine.tsx()),
        keeps_cartridge(machine, machine.txs()),
{
}

/// Arithmetic, logic, compares and BIT keep the cartridge.
pub proof fn lemma_arithmetic_keeps_the_cartridge(machine: Machine, mode: AddressingMode)
    requires
        machine.wf(),
    ensures
        keeps_cartridge(machine, machine.adc(mode)),
        keeps_cartridge(machine, machine.sbc(mode)),
        keeps_cartridge(machine, machine.and(mode)),
        keeps_cartridge(machine, machine.eor(mode)),
        keeps_cartridge(machine, machine.ora(mode)),
        keeps_cartridge(machine, machine.cmp(mode)),
        keeps_cartridge(machine, machine.cpx(mode)),
        keeps_cartridge(machine, machine.cpy(mode)),
        keeps_cartridge(machine, machine.bit(mode)),
{
}

/// Shifts and rotates, alone or combined, keep the cartridge.
pub proof fn lemma_shifts_keep_the_cartridge(machine: Machine, mode: AddressingMode)
    requires
        machine.wf(),
    ensures
        keeps_cartridge(machine, machine.asl(mode)),
        keeps_cartridge(machine, machine.lsr(mode)),
        keeps_cartridge(machine, machine.rol(mode)),
        keeps_cartridge(machine, machine.ror(mode)),
        keeps_cartridge(machine, machine.slo(mode)),
        keeps_cartridge(machine, machine.rla(mode)),
        keeps_cartridge(machine, machine.sre(mode)),
        keeps_cartridge(machine, machine.rra(mode)),
{
    lemma_arithmetic_keeps_the_cartridge(machine.asl(mode), mode);
    lemma_arithmetic_keeps_the_cartridge(machine.rol(mode), mode);
    lemma_arithmetic_keeps_the_cartridge(machine.lsr(mode), mode);
    lemma_arithmetic_keeps_the_cartridge(machine.ror(mode), mode);
}

/// Increments and decrements, alone or combined, keep the cartridge.
pub proof fn lemma_increments_keep_the_cartridge(machine: Machine, mode: AddressingMode)
    requires
        machine.wf(),
    ensures
        keeps_cartridge(machine, machine.inc(mode)),
        keeps_cartridge(machine, machine.dec(mode)),
        keeps_cartridge(machine, machine.inx()),
        keeps_cartridge(machine, machine.iny()),
        keeps_cartridge(machine, machine.dex()),
        keeps_cartridge(machine, machine.dey()),
        keeps_cartridge(machine, machine.dcp(mode)),
        keeps_cartridge(machine, machine.isb(mode)),
{
    lemma_arithmetic_keeps_the_cartridge(machine.dec(mode), mode);
    lemma_arithmetic_keeps_the_cartridge(machine.inc(mode), mode);
}

/// Pushes, pulls, jumps, calls, returns and branches keep the cartridge.
pub proof fn lemma_control_keeps_the_cartridge(
    machine: Machine,
    mode: AddressingMode,
    len: u8,
    mask: u8,
    condition: bool,
)
    requires
        machine.wf(),
    ensures
        keeps_cartridge(machine, machine.pha()),
        keeps_cartridge(machine, machine.php()),
        keeps_cartridge(machine, machine.pla()),
        keeps_cartridge(machine, machine.plp()),
        keeps_cartridge(machine, machine.jmp(mode)),
        keeps_cartridge(machine, machine.jsr(mode, len)),
        keeps_cartridge(machine, machine.rts()),
        keeps_cartridge(machine, machine.rti()),
        keeps_cartridge(machine, machine.branch(mask, condition)),
        keeps_cartridge(machine, machine.with_flag(mask, condition)),
{
}

/// No instruction changes the cartridge, and each leaves the memory usable.
pub proof fn lemma_execute_keeps_the_cartridge(machine: Machine, opcode: OpCode)
    requires
        machine.wf(),
    ensures
        keeps_cartridge(machine, machine.execute(opcode)),
{
    let mode = opcode.mode;
    match opcode.mnemonic {
        Operation::LDA
        | Operation::LDX
        | Operation::LDY
        | Operation::STA
        | Operation::STX
        | Operation::STY
        | Operation::LAX
        | Operation::SAX
        | Operation::TAX
        | Operation::TAY
        | Operation::TXA
        | Operation::TYA
        | Operation::TSX
        | Operation::TXS => lemma_moves_keep_the_cartridge(machine, mode),
        Operation::ADC
        | Operation::SBC
        | Operation::AND
        | Operation::EOR
        | Operation::ORA
        | Operation::CMP
        | Operation::CPX
        | Operation::CPY
        | Operation::BIT => lemma_arithmetic_keeps_the_cartridge(machine, mode),
        Operation::ASL
        | Operation::LSR
        | Operation::ROL
        | Operation::ROR
        | Operation::SLO
        | Operation::RLA
        | Operation::SRE
        | Operation::RRA => lemma_shifts_keep_the_cartridge(machine, mode),
        Operation::INC
        | Operation::INX
        | Operation::INY
        | Operation::DEC
        | Operation::DEX
        | Operation::DEY
        | Operation::DCP
        | Operation::ISB => lemma_increments_keep_the_cartridge(machine, mode),
        Operation::BCC | Operation::BCS => lemma_control_keeps_the_cartridge(
            machine,
            mode,
            opcode.len,
            ProcessorStatus::CARRY,
            opcode.mnemonic is BCS,
        ),
        Operation::BVC | Operation::BVS => lemma_control_keeps_the_cartridge(
            machine,
            mode,
            opcode.len,
            ProcessorStatus::OVERFLOW,
            opcode.mnemonic is BVS,
        ),
        Operation::BPL | Operation::BMI => lemma_control_keeps_the_cartridge(
            machine,
            mode,
            opcode.len,
            ProcessorStatus::NEGATIVE,
            opcode.mnemonic is BMI,
        ),
        Operation::BNE | Operation::BEQ => lemma_control_keeps_the_cartridge(
            machine,
            mode,
            opcode.len,
            ProcessorStatus::ZERO,
            opcode.mnemonic is BEQ,
        ),
        Operation::CLC | Operation::SEC => lemma_control_keeps_the_cartridge(
            machine,
            mode,
            opcode.len,
            ProcessorStatus::CARRY,
            opcode.mnemonic is SEC,
        ),
        Operation::CLI | Operation::SEI => lemma_control_keeps_the_cartridge(
            machine,
            mode,
            opcode.len,
            ProcessorStatus::INTERRUPT_DISABLE,
            opcode.mnemonic is SEI,
        ),
        Operation::CLD | Operation::SED => lemma_control_keeps_the_cartridge(
            machine,
            mode,
            opcode.len,
            ProcessorStatus::DECIMAL,
            opcode.mnemonic is SED,
        ),
        Operation::CLV => lemma_control_keeps_the_cartridge(
            machine,
            mode,
            opcode.len,
            ProcessorStatus::OVERFLOW,
            false,
        ),
        Operation::PHA
        | Operation::PHP
        | Operation::PLA
        | Operation::PLP
        | Operation::JMP
        | Operation::JSR
        | Operation::RTS
        | Operation::RTI => lemma_control_keeps_the_cartridge(
            machine,
            mode,
            opcode.len,
            ProcessorStatus::CARRY,
            false,
        ),
        Operation::NOP | Operation::BRK => {},
    }
}

/// No instruction changes the cartridge, and after every instruction the
/// memory is as usable as before.
pub proof fn law_step_keeps_the_cartridge(machine: Machine)
    requires
        machine.wf(),
    ensures
        keeps_cartridge(machine, machine.step()),
{
    match machine.opcode() {
        None => {},
        Some(opcode) => {
            lemma_execute_keeps_the_cartridge(machine.fetched(), opcode);
        },
    }
}

/// A run changes the cartridge as little as its instructions do.
pub proof fn law_run_keeps_the_cartridge(machine: Machine, limit: nat)
    requires
        machine.wf(),
    ensures
        keeps_cartridge(machine, machine.run(limit)),
    decreases limit,
{
    law_step_keeps_the_cartridge(machine);
    if limit > 0 && machine.opcode() is Some && !machine.at_break() {
        law_run_keeps_the_cartridge(machine.step(), (limit - 1) as nat);
    }
}

/// A run of no instruction changes nothing, and a longer run is one step
/// and then the rest of the run, unless the step was the last.
pub proof fn law_run_unfolds(machine: Machine, limit: nat)
    ensures
        machine.run(0) == machine,
        machine.run_end(0) == Ok::<Stop, DecodeError>(Stop::StepLimit),
        machine.opcode() is Some && !machine.at_break() ==> machine.run(limit + 1)
            == machine.step().run(limit) && machine.run_end(limit + 1) == machine.step().run_end(
            limit,
        ),
        machine.at_break() ==> machine.run(limit + 1) == machine.step() && machine.run_end(
            limit + 1,
        ) == Ok::<Stop, DecodeError>(Stop::Break),
        machine.opcode() is None ==> machine.run(limit + 1) == machine && machine.run_end(
            limit + 1,
        ) == Err::<Stop, DecodeError>(machine.decode_error()),
{
}

} // verus!
