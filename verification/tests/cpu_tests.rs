use famicom_emulator::bus::Bus;
use famicom_emulator::cpu::{AddressingMode, Mem, ProcessorStatus, Stop, CPU};
use famicom_emulator::rom::{Mirroring, Rom, CHR_ROM_PAGE_SIZE, PRG_ROM_PAGE_SIZE};

/// More instructions than any program here executes.
const LIMIT: u64 = 10_000;

/// The status register after a reset: interrupt disable and the unused bit.
const RESET_STATUS: u8 = 0x24;

/// A CPU on a cartridge whose two pages of program ROM hold zeroes.
fn new_cpu() -> CPU {
    CPU::new(Bus::new(Rom {
        prg_rom: vec![0; 2 * PRG_ROM_PAGE_SIZE],
        chr_rom: vec![0; CHR_ROM_PAGE_SIZE],
        mapper: 0,
        screen_mirroring: Mirroring::HORIZONTAL,
    }))
}

pub fn run<F>(program: Vec<u8>, f: F) -> CPU
where
    F: FnOnce(&mut CPU),
{
    let mut cpu = new_cpu();
    cpu.load(program);
    cpu.reset();
    f(&mut cpu);
    assert_eq!(cpu.run(LIMIT), Ok(Stop::Break));
    cpu
}

fn load_and_run(cpu: &mut CPU, program: Vec<u8>) {
    assert_eq!(cpu.load_and_run(program, LIMIT), Ok(Stop::Break));
}

// ---------------------------------------------------------------------
// LDA
// ---------------------------------------------------------------------

#[test]
fn test_lda_effects() {
    let mut cpu = run(vec![0xa9, 0x05, 0x00], |_| {});
    assert_eq!(
        cpu.status
            .contains(ProcessorStatus::NEGATIVE | ProcessorStatus::ZERO),
        false
    );

    cpu = run(vec![0xa9, 0x00, 0x00], |_| {});
    assert!(cpu.status.contains(ProcessorStatus::ZERO));

    cpu = run(vec![0xa9, 0x80, 0x00], |_| {});
    assert!(cpu.status.contains(ProcessorStatus::NEGATIVE));
}

#[test]
fn test_lda_immediate() {
    let cpu = run(vec![0xA9, 0x10, 0x00], |_| {});
    assert_eq!(cpu.accumulator, 0x10);
}

#[test]
fn test_lda_zero_page() {
    let cpu = run(vec![0xA5, 0x10, 0x00], |cpu| {
        cpu.mem_write(0x10, 0x78);
    });

    assert_eq!(cpu.accumulator, 0x78);
}

#[test]
fn test_lda_zero_page_x() {
    let cpu = run(vec![0xB5, 0x08, 0x00], |cpu| {
        cpu.mem_write(0x28, 0x07);
        cpu.index_register_x = 0x20;
    });

    assert_eq!(cpu.accumulator, 0x07);
}

#[test]
fn test_lda_absolute() {
    let cpu = run(vec![0xAD, 0x28, 0x52, 0x00], |cpu| {
        cpu.mem_write(0x5228, 0xF0);
    });
    // 0x5228 is not mapped: the write is dropped and the load reads 0.
    assert_eq!(cpu.accumulator, 0x00);
    assert!(cpu.status.contains(ProcessorStatus::ZERO));
}

#[test]
fn test_lda_absolute_x() {
    let cpu = run(vec![0xBD, 0xA8, 0xF0, 0x00], |cpu| {
        cpu.mem_write(0xF0B9, 0x98);
        cpu.index_register_x = 0x11;
    });
    // 0xF0B9 is program ROM: the write is dropped and the load reads the ROM.
    assert_eq!(cpu.accumulator, 0x00);
}

#[test]
fn test_lda_absolute_y() {
    let cpu = run(vec![0xB9, 0xB0, 0x59, 0x00], |cpu| {
        cpu.mem_write(0x5A00, 0xEA);
        cpu.index_register_y = 0x50;
    });
    // 0x5A00 is not mapped: the write is dropped and the load reads 0.
    assert_eq!(cpu.accumulator, 0x00);
}

#[test]
fn test_lda_indirect_x() {
    let cpu = run(vec![0xA1, 0x80, 0x00], |cpu| {
        cpu.mem_write_u16(0x85, 0x2030);
        cpu.mem_write(0x2030, 0xE1);
        cpu.index_register_x = 0x05;
    });
    // The pointer leads to 0x2030, a register of the PPU: it reads as 0.
    assert_eq!(cpu.mem_read_u16(0x85), 0x2030);
    assert_eq!(cpu.accumulator, 0x00);
}

#[test]
fn test_lda_indirect_y() {
    let cpu = run(vec![0xB1, 0x80, 0x00], |cpu| {
        cpu.mem_write_u16(0x80, 0x2030);
        cpu.mem_write(0x2035, 0xE6);
        cpu.index_register_y = 0x05;
    });
    // The pointer leads to 0x2035, a register of the PPU: it reads as 0.
    assert_eq!(cpu.mem_read_u16(0x80), 0x2030);
    assert_eq!(cpu.accumulator, 0x00);
}

// ---------------------------------------------------------------------
// TAX, INX
// ---------------------------------------------------------------------

#[test]
fn test_tax_effects() {
    let mut cpu = new_cpu();
    load_and_run(&mut cpu, vec![0xa9, 0x10, 0xaa, 0x00]);

    assert_eq!(cpu.index_register_x, 16);
    assert_eq!(
        cpu.status
            .contains(ProcessorStatus::ZERO | ProcessorStatus::NEGATIVE),
        false
    );

    load_and_run(&mut cpu, vec![0xa9, 0x00, 0xaa, 0x00]);
    assert_eq!(cpu.status.contains(ProcessorStatus::ZERO), true);

    load_and_run(&mut cpu, vec![0xa9, 0x80, 0xaa, 0x00]);
    assert_eq!(cpu.status.contains(ProcessorStatus::NEGATIVE), true);
}

#[test]
fn test_inx_effects() {
    let mut cpu = new_cpu();
    load_and_run(&mut cpu, vec![0xe8, 0x00]);

    assert_eq!(cpu.index_register_x, 1);
    assert_eq!(
        cpu.status
            .contains(ProcessorStatus::ZERO | ProcessorStatus::NEGATIVE),
        false
    );

    load_and_run(&mut cpu, vec![0xa9, 0xff, 0xaa, 0xe8, 0x00]);
    assert_eq!(cpu.index_register_x, 0);
    assert_eq!(cpu.status.contains(ProcessorStatus::ZERO), true);

    load_and_run(&mut cpu, vec![0xa9, 0x80, 0xaa, 0xe8, 0x00]);
    assert_eq!(cpu.status.contains(ProcessorStatus::NEGATIVE), true);

    load_and_run(&mut cpu, vec![0xa9, 0xff, 0xaa, 0xe8, 0xe8, 0x00]);
    assert_eq!(cpu.index_register_x, 1)
}

// ---------------------------------------------------------------------
// ADC
// ---------------------------------------------------------------------

#[test]
fn test_adc_no_carry() {
    let cpu = run(vec![0x69, 0x10, 0x00], |cpu| {
        cpu.accumulator = 0x20;
    });
    assert_eq!(cpu.accumulator, 0x30);
    // No flag of the sum: what the reset set is all that is left.
    assert_eq!(cpu.status.bits(), RESET_STATUS);
}

#[test]
fn test_adc_has_carry() {
    let cpu = run(vec![0x69, 0x10, 0x00], |cpu| {
        cpu.accumulator = 0x20;
        cpu.status.insert(ProcessorStatus::CARRY)
    });
    assert_eq!(cpu.accumulator, 0x31);
    assert_eq!(cpu.status.bits(), RESET_STATUS);
}

#[test]
fn test_adc_occur_carry() {
    let cpu = run(vec![0x69, 0x01, 0x00], |cpu| {
        cpu.accumulator = 0xFF;
    });
    assert_eq!(cpu.accumulator, 0x00);
    assert_eq!(
        cpu.status
            .contains(ProcessorStatus::CARRY | ProcessorStatus::ZERO),
        true
    );
}

#[test]
fn test_adc_occur_overflow_plus() {
    let cpu = run(vec![0x69, 0x10, 0x00], |cpu| {
        cpu.accumulator = 0x7F;
    });
    assert_eq!(cpu.accumulator, 0x8F);
    assert_eq!(
        cpu.status
            .contains(ProcessorStatus::NEGATIVE | ProcessorStatus::OVERFLOW),
        true
    );
}

#[test]
fn test_adc_occur_overflow_plus_with_carry() {
    let cpu = run(vec![0x69, 0x6F, 0x00], |cpu| {
        cpu.accumulator = 0x10;
        cpu.status.insert(ProcessorStatus::CARRY);
    });
    assert_eq!(cpu.accumulator, 0x80);
    assert_eq!(
        cpu.status
            .contains(ProcessorStatus::NEGATIVE | ProcessorStatus::OVERFLOW),
        true
    );
}

#[test]
fn test_adc_occur_overflow_minus() {
    let cpu = run(vec![0x69, 0x81, 0x00], |cpu| {
        cpu.accumulator = 0x81;
    });
    assert_eq!(cpu.accumulator, 0x02);
    assert_eq!(
        cpu.status
            .contains(ProcessorStatus::OVERFLOW | ProcessorStatus::CARRY),
        true
    );
}

#[test]
fn test_adc_occur_overflow_minus_with_carry() {
    let cpu = run(vec![0x69, 0x80, 0x00], |cpu| {
        cpu.accumulator = 0x80;
        cpu.status.insert(ProcessorStatus::CARRY);
    });
    assert_eq!(cpu.accumulator, 0x01);
    assert_eq!(
        cpu.status
            .contains(ProcessorStatus::OVERFLOW | ProcessorStatus::CARRY),
        true
    );
}

#[test]
fn test_adc_no_overflow() {
    let cpu = run(vec![0x69, 0x7F, 0x00], |cpu| {
        cpu.accumulator = 0x82;
    });
    assert_eq!(cpu.accumulator, 0x01);
    assert_eq!(cpu.status.contains(ProcessorStatus::CARRY), true);
}

// ---------------------------------------------------------------------
// SBC
// ---------------------------------------------------------------------

#[test]
fn test_sbc_no_carry() {
    let cpu = run(vec![0xe9, 0x10, 0x00], |cpu| {
        cpu.accumulator = 0x20;
    });
    assert_eq!(cpu.accumulator, 0x0F);
    assert!(cpu.status.contains(ProcessorStatus::CARRY))
}

#[test]
fn test_sbc_has_carry() {
    let cpu = run(vec![0xe9, 0x10, 0x00], |cpu| {
        cpu.accumulator = 0x20;
        cpu.status.insert(ProcessorStatus::CARRY)
    });
    assert_eq!(cpu.accumulator, 0x10);
    assert!(cpu.status.contains(ProcessorStatus::CARRY))
}

#[test]
fn test_sbc_occur_carry() {
    let cpu = run(vec![0xe9, 0x02, 0x00], |cpu| {
        cpu.accumulator = 0x01;
    });
    assert_eq!(cpu.accumulator, 0xFE);
    assert!(cpu.status.contains(ProcessorStatus::NEGATIVE))
}

#[test]
fn test_sbc_occur_overflow() {
    let cpu = run(vec![0xe9, 0x81, 0x00], |cpu| {
        cpu.accumulator = 0x7F;
    });
    assert_eq!(cpu.accumulator, 0xFD);
    assert!(cpu
        .status
        .contains(ProcessorStatus::NEGATIVE | ProcessorStatus::OVERFLOW))
}

#[test]
fn test_sbc_occur_overflow_with_carry() {
    let cpu = run(vec![0xe9, 0x81, 0x00], |cpu| {
        cpu.accumulator = 0x7F;
        cpu.status.insert(ProcessorStatus::CARRY)
    });
    assert_eq!(cpu.accumulator, 0xFE);
    assert!(cpu
        .status
        .contains(ProcessorStatus::NEGATIVE | ProcessorStatus::OVERFLOW))
}

#[test]
fn test_sbc_no_overflow() {
    let cpu = run(vec![0xe9, 0x7F, 0x00], |cpu| {
        cpu.accumulator = 0x7E;
        cpu.status.insert(ProcessorStatus::CARRY)
    });
    assert_eq!(cpu.accumulator, 0xFF);
    assert!(cpu.status.contains(ProcessorStatus::NEGATIVE))
}

// ---------------------------------------------------------------------
// AND, EOR, ORA
// ---------------------------------------------------------------------

#[test]
fn test_and() {
    let cpu = run(vec![0x29, 0x0C, 0x00], |cpu| {
        cpu.accumulator = 0x0A;
    });
    assert_eq!(cpu.accumulator, 0x08);
    assert_eq!(cpu.status.bits(), RESET_STATUS);
}

#[test]
fn test_eor() {
    let mut cpu = new_cpu();

    cpu.load(vec![0x49, 0xF0, 0x00]);
    cpu.reset();
    cpu.accumulator = 0x6E;
    assert_eq!(cpu.run(LIMIT), Ok(Stop::Break));

    assert_eq!(cpu.accumulator, 0x9E);
    assert_eq!(cpu.status.contains(ProcessorStatus::NEGATIVE), true);
}

#[test]
fn test_ora() {
    let mut cpu = new_cpu();

    cpu.load(vec![0x09, 0xF0, 0x00]);
    cpu.reset();
    cpu.accumulator = 0x6E;
    assert_eq!(cpu.run(LIMIT), Ok(Stop::Break));

    assert_eq!(cpu.accumulator, 0xFE);
    assert_eq!(cpu.status.contains(ProcessorStatus::NEGATIVE), true);
}

// ---------------------------------------------------------------------
// ASL, LSR
// ---------------------------------------------------------------------

#[test]
fn test_asl_accumlator() {
    let cpu = run(vec![0x0A, 0x00], |cpu| {
        cpu.accumulator = 0x03;
    });
    assert_eq!(cpu.accumulator, 0x03 * 2);
    assert_eq!(cpu.status.bits(), RESET_STATUS);
}

#[test]
fn test_asl_zero_page() {
    let cpu = run(vec![0x06, 0x01, 0x00], |cpu| {
        cpu.mem_write(0x0001, 0x03);
    });
    assert_eq!(cpu.mem_read(0x0001), 0x03 * 2);
    assert_eq!(cpu.status.bits(), RESET_STATUS);
}

#[test]
fn test_asl_a_occur_carry() {
    let cpu = run(vec![0x0A, 0x00], |cpu| {
        cpu.accumulator = 0x81;
    });
    assert_eq!(cpu.accumulator, 0x02);
    assert_eq!(cpu.status.contains(ProcessorStatus::CARRY), true);
}

#[test]
fn test_asl_zero_page_occur_carry() {
    let cpu = run(vec![0x06, 0x01, 0x00], |cpu| {
        cpu.mem_write(0x0001, 0x81);
    });
    assert_eq!(cpu.mem_read(0x0001), 0x02);
    assert_eq!(cpu.status.contains(ProcessorStatus::CARRY), true);
}

#[test]
fn test_lsr_accumulator() {
    let cpu = run(vec![0x4A, 0x00], |cpu| {
        cpu.accumulator = 0x02;
    });
    assert_eq!(cpu.accumulator, 0x01);
    assert_eq!(cpu.status.bits(), RESET_STATUS);
}

#[test]
fn test_lsr_zero_page() {
    let cpu = run(vec![0x46, 0x01, 0x00], |cpu| {
        cpu.mem_write(0x0001, 0x02);
    });
    assert_eq!(cpu.mem_read(0x0001), 0x01);
    assert_eq!(cpu.status.bits(), RESET_STATUS);
}

#[test]
fn test_lsr_zero_page_zero_flag() {
    let cpu = run(vec![0x46, 0x01, 0x00], |cpu| {
        cpu.mem_write(0x0001, 0x01);
    });
    assert_eq!(cpu.mem_read(0x0001), 0x00);
    assert!(cpu
        .status
        .contains(ProcessorStatus::CARRY | ProcessorStatus::ZERO));
}

#[test]
fn test_lsr_a_occur_carry() {
    let cpu = run(vec![0x4A, 0x00], |cpu| {
        cpu.accumulator = 0x03;
    });
    assert_eq!(cpu.accumulator, 0x01);
    assert!(cpu.status.contains(ProcessorStatus::CARRY));
}

#[test]
fn test_lsr_zero_page_occur_carry() {
    let cpu = run(vec![0x46, 0x01, 0x00], |cpu| {
        cpu.mem_write(0x0001, 0x03);
    });
    assert_eq!(cpu.mem_read(0x0001), 0x01);
    assert!(cpu.status.contains(ProcessorStatus::CARRY));
}

// ---------------------------------------------------------------------
// ROL, ROR: the carry goes in at one end, the bit that leaves at the
// other end becomes the carry, N and Z come from the byte that stays
// ---------------------------------------------------------------------

#[test]
fn test_rol_load_acc() {
    let mut cpu = new_cpu();

    cpu.load(vec![0x2A, 0x00]);
    cpu.reset();
    cpu.accumulator = 0b10101011;
    assert_eq!(cpu.run(LIMIT), Ok(Stop::Break));

    // The carry was clear, so bit 0 is clear; bit 7 of the result is clear.
    assert_eq!(cpu.accumulator, 0b01010110);
    assert_eq!(cpu.status.contains(ProcessorStatus::CARRY), true);
    assert_eq!(cpu.status.contains(ProcessorStatus::NEGATIVE), false);
}

#[test]
fn test_rol_load_mem() {
    let mut cpu = new_cpu();

    cpu.mem_write(0x10, 0b01100101);
    cpu.load(vec![0x26, 0x10, 0x00]);
    cpu.reset();
    assert_eq!(cpu.run(LIMIT), Ok(Stop::Break));

    assert_eq!(cpu.mem_read(0x10), 0b11001010);
    assert_eq!(cpu.status.contains(ProcessorStatus::CARRY), false);
    // Bit 7 of the result is set.
    assert_eq!(cpu.status.contains(ProcessorStatus::NEGATIVE), true);
}

#[test]
fn test_ror_load_acc() {
    let mut cpu = new_cpu();

    cpu.load(vec![0x6A, 0x00]);
    cpu.reset();
    cpu.accumulator = 0b10101011;
    assert_eq!(cpu.run(LIMIT), Ok(Stop::Break));

    // The carry was clear, so bit 7 is clear.
    assert_eq!(cpu.accumulator, 0b01010101);
    assert_eq!(cpu.status.contains(ProcessorStatus::CARRY), true);
    assert_eq!(cpu.status.contains(ProcessorStatus::NEGATIVE), false);
}

#[test]
fn test_ror_load_mem() {
    let mut cpu = new_cpu();

    cpu.mem_write(0x10, 0b01100101);
    cpu.load(vec![0x66, 0x10, 0x00]);
    cpu.reset();
    assert_eq!(cpu.run(LIMIT), Ok(Stop::Break));

    // The carry was clear, so bit 7 is clear; bit 0 left into the carry.
    assert_eq!(cpu.mem_read(0x10), 0b00110010);
    assert_eq!(cpu.status.contains(ProcessorStatus::CARRY), true);
    assert_eq!(cpu.status.contains(ProcessorStatus::NEGATIVE), false);
}

// ---------------------------------------------------------------------
// Branches
// ---------------------------------------------------------------------

#[test]
fn test_bcc() {
    let cpu = run(vec![0x90, 0x02, 0x00, 0x00, 0xe8, 0x00], |_| {});
    assert_eq!(cpu.index_register_x, 0x01);
    assert_eq!(cpu.status.bits(), RESET_STATUS);
    assert_eq!(cpu.program_counter, 0x8006)
}

#[test]
fn test_bcc_with_carry() {
    let cpu = run(vec![0x90, 0x02, 0x00, 0x00, 0xe8, 0x00], |cpu| {
        cpu.status.insert(ProcessorStatus::CARRY)
    });
    assert_eq!(cpu.index_register_x, 0x00);
    assert_eq!(cpu.status.contains(ProcessorStatus::CARRY), true);
    assert_eq!(cpu.program_counter, 0x8003)
}

#[test]
fn test_bcc_negative() {
    let cpu = run(vec![0x90, 0xfc, 0x00], |cpu| {
        cpu.mem_write(0x7FFF, 0x00);
        cpu.mem_write(0x7FFE, 0xe8);
    });
    // The branch goes back to 0x7FFE. Nothing is mapped there: the writes
    // were dropped, the byte reads as 0, and that is a BRK.
    assert_eq!(cpu.index_register_x, 0x00);
    assert_eq!(cpu.status.bits(), RESET_STATUS);
    assert_eq!(cpu.program_counter, 0x7FFF);
}

#[test]
fn test_bcs() {
    let program = vec![0xB0, 0x02, 0x00, 0x00, 0x00];
    let cpu = run(program, |cpu| cpu.status.insert(ProcessorStatus::CARRY));

    assert_eq!(cpu.program_counter, 0x8005);
}

#[test]
fn test_bne() {
    let program = vec![0xD0, 0x03, 0x00, 0x00, 0x00, 0xE8, 0x00];
    let cpu = run(program, |_| {});

    assert_eq!(cpu.program_counter, 0x8007);
    assert_eq!(cpu.index_register_x, 0x1);
}

#[test]
fn test_beq() {
    let cpu = run(vec![0xF0, 0x02, 0x00, 0x00, 0xe8, 0x00], |_| {});

    assert_eq!(cpu.index_register_x, 0x00);
    assert_eq!(cpu.status.bits(), RESET_STATUS);
    assert_eq!(cpu.program_counter, 0x8003);
}

#[test]
fn test_beq_with_zero_flag() {
    let cpu = run(vec![0xF0, 0x02, 0x00, 0x00, 0xe8, 0x00], |cpu| {
        cpu.status.insert(ProcessorStatus::ZERO);
    });
    assert_eq!(cpu.index_register_x, 0x01);
    assert_eq!(cpu.status.bits(), RESET_STATUS);
    assert_eq!(cpu.program_counter, 0x8006);
}

#[test]
fn test_bvc() {
    let program = vec![0xD0, 0x04, 0x00, 0x00, 0x00, 0x00, 0xE8, 0x00];
    let cpu = run(program, |_| {});

    assert_eq!(cpu.program_counter, 0x8008);
    assert_eq!(cpu.index_register_x, 0x1);
}

#[test]
fn test_bvs() {
    let program = vec![0xD0, 0x04, 0x00, 0x00, 0x00, 0x00, 0xE8, 0x00];
    let cpu = run(program, |cpu| cpu.status.insert(ProcessorStatus::OVERFLOW));

    assert_eq!(cpu.program_counter, 0x8008);
    assert_eq!(cpu.index_register_x, 0x1);
}

#[test]
fn cpu_tests_test_bvs() {
    let program = vec![0x10, 0x03, 0x00, 0x00, 0x00, 0xE8, 0x00];
    let cpu = run(program, |_| {});
    assert_eq!(cpu.program_counter, 0x8007);
    assert_eq!(cpu.index_register_x, 0x01);
}

#[test]
fn test_bmi() {
    let program = vec![0x10, 0x03, 0x00, 0x00, 0x00, 0xE8, 0x00];
    let cpu = run(program, |cpu| cpu.status.insert(ProcessorStatus::NEGATIVE));

    assert_eq!(cpu.program_counter, 0x8003);
    assert_eq!(cpu.index_register_x, 0x0);
}

// ---------------------------------------------------------------------
// BIT
// ---------------------------------------------------------------------

#[test]
fn test_bit() {
    let cpu = run(vec![0x24, 0x00, 0x00], |cpu| {
        cpu.accumulator = 0x00;
        cpu.mem_write(0x0000, 0x00);
    });
    assert!(cpu.status.contains(ProcessorStatus::ZERO));
}

#[test]
fn test_bit_negative_flag() {
    let cpu = run(vec![0x24, 0x00, 0x00], |cpu| {
        cpu.accumulator = 0x00;
        cpu.mem_write(0x0000, 0x80);
    });
    assert!(cpu
        .status
        .contains(ProcessorStatus::ZERO | ProcessorStatus::NEGATIVE));
}

#[test]
fn test_bit_overflow_flag() {
    let cpu = run(vec![0x24, 0x00, 0x00], |cpu| {
        cpu.accumulator = 0x40;
        cpu.mem_write(0x0000, 0x40);
    });
    assert!(cpu.status.contains(ProcessorStatus::OVERFLOW));
}

// ---------------------------------------------------------------------
// Flag instructions
// ---------------------------------------------------------------------

#[test]
fn test_carry() {
    let mut cpu = run(vec![0x18, 0x00], |cpu| {
        cpu.status.set(ProcessorStatus::CARRY, true)
    });

    assert_eq!(cpu.status.contains(ProcessorStatus::CARRY), false);

    cpu = run(vec![0x38, 0x00], |cpu| {
        cpu.status.set(ProcessorStatus::CARRY, false)
    });

    assert_eq!(cpu.status.contains(ProcessorStatus::CARRY), true);
}

#[test]
fn test_interrupt_disable() {
    let mut cpu = run(vec![0x58, 0x00], |cpu| {
        cpu.status.set(ProcessorStatus::INTERRUPT_DISABLE, true)
    });

    assert_eq!(
        cpu.status.contains(ProcessorStatus::INTERRUPT_DISABLE),
        false
    );

    cpu = run(vec![0x78, 0x00], |cpu| {
        cpu.status.set(ProcessorStatus::INTERRUPT_DISABLE, false)
    });

    assert_eq!(
        cpu.status.contains(ProcessorStatus::INTERRUPT_DISABLE),
        true
    );
}

#[test]
fn test_decimal_mode() {
    let mut cpu = run(vec![0xD8, 0x00], |cpu| {
        cpu.status.set(ProcessorStatus::DECIMAL, true)
    });

    assert_eq!(cpu.status.contains(ProcessorStatus::DECIMAL), false);

    cpu = run(vec![0xF8, 0x00], |cpu| {
        cpu.status.set(ProcessorStatus::DECIMAL, false)
    });

    assert_eq!(cpu.status.contains(ProcessorStatus::DECIMAL), true);
}

#[test]
fn test_overflow() {
    let cpu = run(vec![0xB8, 0x00], |cpu| {
        cpu.status.set(ProcessorStatus::OVERFLOW, true)
    });

    assert_eq!(cpu.status.contains(ProcessorStatus::OVERFLOW), false);
}

// ---------------------------------------------------------------------
// Compares
// ---------------------------------------------------------------------

#[test]
fn test_cmp() {
    let cpu = run(vec![0xC9, 0x01, 0x00], |cpu| {
        cpu.accumulator = 0x02;
    });
    assert!(cpu.status.contains(ProcessorStatus::CARRY));
}

#[test]
fn test_cmp_eq() {
    let cpu = run(vec![0xC9, 0x02, 0x00], |cpu| {
        cpu.accumulator = 0x02;
    });
    assert!(cpu
        .status
        .contains(ProcessorStatus::CARRY | ProcessorStatus::ZERO));
}

#[test]
fn test_cmp_negative() {
    let cpu = run(vec![0xC9, 0x03, 0x00], |cpu| {
        cpu.accumulator = 0x02;
    });
    assert!(cpu.status.contains(ProcessorStatus::NEGATIVE));
}

#[test]
fn test_cpx_greater_than_or_eq() {
    let cpu = run(vec![0xE0, 0x10, 0x00], |cpu| {
        cpu.index_register_x = 0x50;
    });

    // index X > memory
    assert_eq!(cpu.status.contains(ProcessorStatus::CARRY), true);
    assert_eq!(
        cpu.status
            .contains(ProcessorStatus::ZERO | ProcessorStatus::NEGATIVE),
        false
    );
}

#[test]
fn test_cpx_eq() {
    let cpu = run(vec![0xE0, 0x50, 0x00], |cpu| {
        cpu.index_register_x = 0x50;
    });

    // index X = memory
    assert_eq!(
        cpu.status
            .contains(ProcessorStatus::CARRY | ProcessorStatus::ZERO),
        true
    );
    assert_eq!(cpu.status.contains(ProcessorStatus::NEGATIVE), false);
}

#[test]
fn test_cpx_less_than() {
    // index X < memory
    let cpu = run(vec![0xE0, 0xB8, 0x00], |cpu| {
        cpu.index_register_x = 0x10;
        cpu.mem_write(0xB8, 0x50);
    });

    assert_eq!(
        cpu.status.contains(
            ProcessorStatus::CARRY | ProcessorStatus::ZERO | ProcessorStatus::NEGATIVE
        ),
        false
    );
    assert_eq!(cpu.status.contains(ProcessorStatus::NEGATIVE), false);
}

#[test]
fn test_cpy_greater_than_or_eq() {
    let cpu = run(vec![0xC0, 0x10, 0x00], |cpu| {
        cpu.index_register_y = 0x50;
    });

    // index Y > memory
    assert_eq!(cpu.status.contains(ProcessorStatus::CARRY), true);
    assert_eq!(
        cpu.status
            .contains(ProcessorStatus::ZERO | ProcessorStatus::NEGATIVE),
        false
    );
}

#[test]
fn test_cpy_eq() {
    let cpu = run(vec![0xC0, 0x50, 0x00], |cpu| {
        cpu.index_register_y = 0x50;
    });

    // index Y = memory
    assert_eq!(
        cpu.status
            .contains(ProcessorStatus::CARRY | ProcessorStatus::ZERO),
        true
    );
    assert_eq!(cpu.status.contains(ProcessorStatus::NEGATIVE), false);
}

#[test]
fn test_cpy_less_than() {
    // index Y < memory
    let cpu = run(vec![0xC0, 0xB8, 0x00], |cpu| {
        cpu.index_register_y = 0x10;
        cpu.mem_write(0xB8, 0x50);
    });

    assert_eq!(
        cpu.status.contains(
            ProcessorStatus::CARRY | ProcessorStatus::ZERO | ProcessorStatus::NEGATIVE
        ),
        false
    );
    assert_eq!(cpu.status.contains(ProcessorStatus::NEGATIVE), false);
}

// ---------------------------------------------------------------------
// Increments and decrements
// ---------------------------------------------------------------------

#[test]
fn test_dec_memory() {
    let cpu = run(vec![0xC6, 0x20, 0x00], |cpu| {
        cpu.mem_write(0x20, 0x70);
    });
    assert_eq!(cpu.mem_read(0x20), 0x6F);
    assert_eq!(cpu.status.contains(ProcessorStatus::NEGATIVE), false);
}

#[test]
fn test_dec_index_x() {
    let cpu = run(vec![0xCA, 0x00], |cpu| {
        cpu.index_register_x = 0x70;
    });
    assert_eq!(cpu.index_register_x, 0x6F);
    assert_eq!(cpu.status.contains(ProcessorStatus::NEGATIVE), false);
}

#[test]
fn test_dec_index_y() {
    let cpu = run(vec![0x88, 0x00], |cpu| {
        cpu.index_register_y = 0x70;
    });
    assert_eq!(cpu.index_register_y, 0x6F);
    assert_eq!(cpu.status.contains(ProcessorStatus::NEGATIVE), false);
}

#[test]
fn test_inc_memory() {
    let cpu = run(vec![0xE6, 0x20, 0x00], |cpu| {
        cpu.mem_write(0x20, 0x70);
    });
    assert_eq!(cpu.mem_read(0x20), 0x71);
    assert_eq!(cpu.status.contains(ProcessorStatus::NEGATIVE), false);
}

#[test]
fn test_inc_index_y() {
    let cpu = run(vec![0xC8, 0x00], |cpu| {
        cpu.index_register_y = 0x70;
    });
    assert_eq!(cpu.index_register_y, 0x71);
    assert_eq!(cpu.status.contains(ProcessorStatus::NEGATIVE), false);
}

// ---------------------------------------------------------------------
// NOP, loads into X and Y, stores, transfers
// ---------------------------------------------------------------------

#[test]
fn test_nop() {
    let cpu = run(vec![0xEA, 0x00], |_| {});
    assert_eq!(cpu.program_counter, 0x8002);
}

#[test]
fn load_mem_to_registe_x() {
    let cpu = run(vec![0xA2, 0x10, 0x00], |_| {});
    assert_eq!(cpu.index_register_x, 0x10);
}

#[test]
fn load_mem_to_registe_y() {
    let cpu = run(vec![0xA0, 0x10, 0x00], |_| {});
    assert_eq!(cpu.index_register_y, 0x10);
}

#[test]
fn test_sta_store_accumulator_for_mem() {
    let cpu = run(vec![0x85, 0xF0, 0x00], |cpu| {
        cpu.accumulator = 0x90;
        cpu.mem_write(0xF0, 0x00);
    });

    assert_eq!(cpu.mem_read(0xF0), cpu.accumulator);
}

#[test]
fn test_stx_store_register_x_for_mem() {
    let cpu = run(vec![0x86, 0xF0, 0x00], |cpu| {
        cpu.index_register_x = 0x90;
        cpu.mem_write(0xF0, 0x00);
    });

    assert_eq!(cpu.mem_read(0xF0), cpu.index_register_x);
}

#[test]
fn test_sty_store_register_y_for_mem() {
    let cpu = run(vec![0x84, 0xF0, 0x00], |cpu| {
        cpu.index_register_x = 0x90;
        cpu.mem_write(0xF0, 0x00);
    });

    assert_eq!(cpu.mem_read(0xF0), cpu.index_register_y);
}

#[test]
fn test_accumlator_to_register_y() {
    let cpu = run(vec![0xA8, 0x00], |cpu| {
        cpu.accumulator = 0x90;
    });
    assert_eq!(cpu.index_register_y, cpu.accumulator);
}

#[test]
fn test_register_y_to_accumlator() {
    let cpu = run(vec![0xA8, 0x00], |cpu| {
        cpu.index_register_y = 0x90;
    });
    assert_eq!(cpu.accumulator, cpu.index_register_y);
}

#[test]
fn test_register_x_to_accumlator() {
    let cpu = run(vec![0x8A, 0x00], |cpu| {
        cpu.index_register_x = 0x90;
    });
    assert_eq!(cpu.accumulator, cpu.index_register_x);
}

#[test]
fn test_txs_register_x_to_stack() {
    let cpu = run(vec![0x9A, 0x00], |cpu| {
        cpu.index_register_x = 0x90;
    });
    assert_eq!(cpu.stack_pointer, cpu.index_register_x);
}

#[test]
fn test_tsx_stack_to_register_x() {
    let cpu = run(vec![0xBA, 0x00], |cpu| {
        cpu.stack_pointer = 0x90;
    });
    assert_eq!(cpu.index_register_x, cpu.stack_pointer);
}

// ---------------------------------------------------------------------
// Stack: a reset leaves the stack pointer at 0xFD
// ---------------------------------------------------------------------

#[test]
fn test_push_accumlator() {
    let cpu = run(vec![0x48, 0x00], |cpu| {
        cpu.accumulator = 0x90;
    });
    // The byte went to 0x01FD, where the stack pointer was.
    assert_eq!(cpu.mem_read(0x1FF), 0x00);
    assert_eq!(cpu.mem_read(0x1FD), 0x90);
    assert_eq!(cpu.stack_pointer, 0xFC);
}

#[test]
fn test_push_processor_status() {
    let cpu = run(vec![0x08, 0x00], |cpu| {
        cpu.status =
            ProcessorStatus::from_bits_truncate(ProcessorStatus::CARRY | ProcessorStatus::ZERO);
    });

    // The copy that is pushed has the break bit and the unused bit set.
    assert_eq!(cpu.mem_read(0x1FF), 0x00);
    assert_eq!(cpu.mem_read(0x1FD), 0x33);
    assert_eq!(cpu.stack_pointer, 0xFC);
    assert_eq!(cpu.status.bits(), 0x03);
}

#[test]
fn test_pull_accumlator() {
    let cpu = run(vec![0x48, 0x68, 0x00], |cpu| {
        cpu.accumulator = 0x90;
    });
    assert_eq!(
        cpu.status
            .contains(ProcessorStatus::CARRY | ProcessorStatus::ZERO),
        false
    );
    assert_eq!(cpu.accumulator, 0x90);
    assert_eq!(cpu.stack_pointer, 0xFD);
}

#[test]
fn test_pull_processor_status() {
    let cpu = run(vec![0x08, 0x28, 0x00], |cpu| {
        cpu.status =
            ProcessorStatus::from_bits_truncate(ProcessorStatus::CARRY | ProcessorStatus::ZERO);
    });

    assert_eq!(
        cpu.status
            .contains(ProcessorStatus::CARRY | ProcessorStatus::ZERO),
        true
    );
    assert_eq!(cpu.stack_pointer, 0xFD);
    // The pull clears the break bit and sets the unused bit.
    assert_eq!(cpu.status.bits(), 0x23);
}

// ---------------------------------------------------------------------
// Jumps and subroutines
// ---------------------------------------------------------------------

#[test]
fn test_jmp() {
    let cpu = run(vec![0x4c, 0x30, 0x40, 0x00], |cpu| {
        cpu.mem_write(0x4030, 0xe8);
        cpu.mem_write(0x4031, 0x00);
    });
    // Nothing is mapped at 0x4030: the writes were dropped, and the byte
    // that the jump lands on reads as 0, a BRK.
    assert_eq!(cpu.index_register_x, 0x00);
    assert_eq!(cpu.status.bits(), RESET_STATUS);
    assert_eq!(cpu.program_counter, 0x4031);
}

#[test]
fn test_jmp_indirect() {
    let cpu = run(vec![0x6c, 0x30, 0x40, 0x00], |cpu| {
        cpu.mem_write(0x4030, 0x01);
        cpu.mem_write(0x4031, 0x02);

        cpu.mem_write(0x0201, 0xe8);
        cpu.mem_write(0x0202, 0x00);
    });
    // Nothing is mapped at 0x4030: the pointer reads as 0x0000, and the
    // byte at 0x0000 is a BRK.
    assert_eq!(cpu.index_register_x, 0x00);
    assert_eq!(cpu.status.bits(), RESET_STATUS);
    assert_eq!(cpu.program_counter, 0x0001);
}

#[test]
fn test_jsr_and_rts() {
    let cpu = run(vec![0x20, 0x30, 0x40, 0x00], |cpu| {
        cpu.mem_write(0x4030, 0xe8);
        cpu.mem_write(0x4031, 0x60); // RTS
        cpu.mem_write(0x4032, 0x00);
    });
    // Nothing is mapped at 0x4030: the subroutine is a single BRK, and the
    // return address is still on the stack, below 0x01FD.
    assert_eq!(cpu.index_register_x, 0x00);
    assert_eq!(cpu.status.bits(), RESET_STATUS);
    assert_eq!(cpu.program_counter, 0x4031);
    assert_eq!(cpu.stack_pointer, 0xFB);
    assert_eq!(cpu.mem_read_u16(0x01FE), 0x0000);
    assert_eq!(cpu.mem_read_u16(0x01FC), 0x8002);
}

// ---------------------------------------------------------------------
// Addressing modes
// ---------------------------------------------------------------------

pub fn set_cpu_state<F>(f: F) -> CPU
where
    F: FnOnce(&mut CPU),
{
    let mut cpu = new_cpu();
    cpu.reset();
    f(&mut cpu);
    cpu
}

#[test]
fn test_addressing_mode_immediate() {
    let cpu = set_cpu_state(|cpu| cpu.program_counter = 0x90);
    let effective_address = cpu.get_operand_address(&AddressingMode::Immediate);
    assert_eq!(effective_address, cpu.program_counter);
}

#[test]
fn test_addressing_mode_zeropage() {
    let cpu = set_cpu_state(|cpu| cpu.mem_write(cpu.program_counter, 0x44));
    let effective_address = cpu.get_operand_address(&AddressingMode::ZeroPage);
    assert_eq!(effective_address, 0x44);
}

#[test]
fn test_addressing_mode_zeropage_x() {
    let cpu = set_cpu_state(|cpu| {
        cpu.mem_write(cpu.program_counter, 0x44);
        cpu.index_register_x = 0x10;
    });
    let effective_address = cpu.get_operand_address(&AddressingMode::ZeroPage_X);
    assert_eq!(effective_address, 0x54);
}

#[test]
fn test_addressing_mode_zeropage_y() {
    let cpu = set_cpu_state(|cpu| {
        cpu.mem_write(cpu.program_counter, 0x50);
        cpu.index_register_y = 0x02;
    });
    let effective_address = cpu.get_operand_address(&AddressingMode::ZeroPage_Y);
    assert_eq!(effective_address, 0x52);
}

#[test]
fn test_addressing_mode_absolute() {
    let cpu = set_cpu_state(|cpu| {
        cpu.mem_write(cpu.program_counter, 0x80);
        cpu.mem_write(cpu.program_counter.wrapping_add(1), 0x49);
    });
    let effective_address = cpu.get_operand_address(&AddressingMode::Absolute);
    assert_eq!(effective_address, 0x4980);
}

#[test]
fn test_addressing_mode_absolute_x() {
    let cpu = set_cpu_state(|cpu| {
        cpu.index_register_x = 0x20;
        cpu.mem_write(cpu.program_counter, 0x30);
        cpu.mem_write(cpu.program_counter.wrapping_add(1), 0x98);
    });
    let effective_address = cpu.get_operand_address(&AddressingMode::Absolute_X);
    assert_eq!(effective_address, 0x9850);
}

#[test]
fn test_addressing_mode_absolute_y() {
    let cpu = set_cpu_state(|cpu| {
        cpu.index_register_y = 0x42;
        cpu.mem_write(cpu.program_counter, 0x50);
        cpu.mem_write(cpu.program_counter.wrapping_add(1), 0xE0);
    });
    let effective_address = cpu.get_operand_address(&AddressingMode::Absolute_Y);
    assert_eq!(effective_address, 0xE092);
}

#[test]
fn test_addressing_mode_indirect() {
    // See the tests of JMP.
}

#[test]
fn test_addressing_mode_indirect_x() {
    let cpu = set_cpu_state(|cpu| {
        cpu.index_register_x = 0x05;
        cpu.mem_write(cpu.program_counter, 0x40);
        cpu.mem_write(0x45, 0x10);
        cpu.mem_write(0x46, 0x09);
    });

    let effective_address = cpu.get_operand_address(&AddressingMode::Indirect_X);
    assert_eq!(effective_address, 0x0910);
}

#[test]
fn test_addressing_mode_indirect_y() {
    let cpu = set_cpu_state(|cpu| {
        cpu.index_register_y = 0x05;
        cpu.mem_write(cpu.program_counter, 0xA0);
        cpu.mem_write(0xA0, 0x50);
        cpu.mem_write(0xA1, 0xB2);
    });

    let effective_address = cpu.get_operand_address(&AddressingMode::Indirect_Y);
    assert_eq!(effective_address, 0xB255);
}

#[test]
fn test_addressing_mode_relative() {}

#[test]
fn test_addressing_mode_accumulator() {
    let cpu = set_cpu_state(|cpu| {
        cpu.accumulator = 0x42;
    });
    let effective_address = cpu.get_operand_address(&AddressingMode::Accumulator);
    assert_eq!(effective_address, 0x42);
}

#[test]
fn test_addressing_mode_implicit() {
    let cpu = set_cpu_state(|_| {});
    let effective_address = cpu.get_operand_address(&AddressingMode::Implicit);
    assert_eq!(effective_address, 0);
}

// ---------------------------------------------------------------------
// Memory access
// ---------------------------------------------------------------------

#[test]
fn test_mem_read_write() {
    let mut cpu = new_cpu();

    cpu.mem_write(0x8000, 0xAB);
    cpu.mem_write(0x8001, 0xCD);

    let data1 = cpu.mem_read(0x8000);
    let data2 = cpu.mem_read(0x8001);

    // 0x8000 is program ROM: it takes no write and reads as before.
    assert_eq!(data1, 0x00);
    assert_eq!(data2, 0x00);
}

#[test]
fn test_mem_read_write_u16() {
    let mut cpu = new_cpu();
    cpu.mem_write_u16(0x8000, 0xABCD);
    let value = cpu.mem_read_u16(0x8000);
    // 0x8000 is program ROM: it takes no write and reads as before.
    assert_eq!(value, 0x0000)
}

// ---------------------------------------------------------------------
// Load, reset, run
// ---------------------------------------------------------------------

#[test]
fn test_load() {
    let mut cpu = new_cpu();
    let program: Vec<u8> = vec![0x01, 0x02, 0x03];
    cpu.load(program.clone());

    for (i, &byte) in program.iter().enumerate() {
        let memory_index = 0x8000 + i;
        assert!(
            memory_index <= 0xFFFF,
            "Memory index out of range: 0x{:X}",
            memory_index
        );
        assert_eq!(cpu.mem_read(memory_index as u16), byte);
    }
    assert_eq!(cpu.program_counter, 0);
}

#[test]
fn test_reset() {
    let mut cpu = new_cpu();
    cpu.accumulator = 1;
    cpu.index_register_x = 1;
    cpu.status.insert(ProcessorStatus::NEGATIVE);
    cpu.reset();
    assert_eq!(cpu.accumulator, 0);
    assert_eq!(cpu.index_register_x, 0);
    assert_eq!(cpu.status.contains(ProcessorStatus::NEGATIVE), false);
}

#[test]
fn test_5_ops_working_together() {
    let mut cpu = new_cpu();
    load_and_run(&mut cpu, vec![0xa9, 0xc0, 0xaa, 0xe8, 0x00]);

    assert_eq!(cpu.index_register_x, 0xc1)
}
