use famicom_emulator::bus::Bus;
use famicom_emulator::cpu::{Mem, ProcessorStatus, Step, CPU};
use famicom_emulator::rom::test::test_rom;
use famicom_emulator::trace::trace;

/// A CPU after a reset, with `bytes` in RAM from `at` on and the program
/// counter at `at`.
fn cpu_at(at: u16, bytes: &[u8]) -> CPU {
    let mut cpu = CPU::new(Bus::new(test_rom(vec![])));
    cpu.reset();
    for (i, byte) in bytes.iter().enumerate() {
        cpu.mem_write(at + i as u16, *byte);
    }
    cpu.program_counter = at;
    cpu
}

#[test]
fn test_trace_zero_page_read() {
    let mut cpu = cpu_at(0x0066, &[0xA5, 0x20]);
    cpu.mem_write(0x0020, 0x00);
    cpu.accumulator = 0x10;
    cpu.index_register_x = 0x02;
    cpu.index_register_y = 0x03;
    assert_eq!(cpu.status.bits(), 0x24);
    assert_eq!(cpu.stack_pointer, 0xFD);
    assert_eq!(
        trace(&cpu),
        "0066  A5 20     LDA $20 = 00                    A:10 X:02 Y:03 P:24 SP:FD"
    );
}

#[test]
fn test_trace_follows_a_program() {
    let mut cpu = cpu_at(0x0064, &[0xA2, 0x01, 0xCA, 0x88, 0x00]);
    cpu.accumulator = 1;
    cpu.index_register_x = 2;
    cpu.index_register_y = 3;
    let mut lines: Vec<String> = vec![];
    loop {
        lines.push(trace(&cpu));
        if cpu.step() != Ok(Step::Next) {
            break;
        }
    }
    assert_eq!(
        lines,
        vec![
            "0064  A2 01     LDX #$01                        A:01 X:02 Y:03 P:24 SP:FD",
            "0066  CA        DEX                             A:01 X:01 Y:03 P:24 SP:FD",
            "0067  88        DEY                             A:01 X:00 Y:03 P:26 SP:FD",
            "0068  00        BRK                             A:01 X:00 Y:02 P:24 SP:FD",
        ]
    );
}

#[test]
fn test_trace_does_not_change_the_cpu() {
    let mut cpu = cpu_at(0x0064, &[0xE6, 0x10]);
    cpu.mem_write(0x0010, 0x7F);
    let first = trace(&cpu);
    let second = trace(&cpu);
    assert_eq!(first, second);
    assert_eq!(first, "0064  E6 10     INC $10 = 7F                    A:00 X:00 Y:00 P:24 SP:FD");
    assert_eq!(cpu.program_counter, 0x0064);
    assert_eq!(cpu.mem_read(0x0010), 0x7F);
}

#[test]
fn test_trace_indirect_y() {
    let mut cpu = cpu_at(0x0064, &[0x11, 0x33]);
    cpu.mem_write(0x33, 0x00);
    cpu.mem_write(0x34, 0x04);
    cpu.mem_write(0x0400, 0xAA);
    assert_eq!(
        trace(&cpu),
        "0064  11 33     ORA ($33),Y = 0400 @ 0400 = AA  A:00 X:00 Y:00 P:24 SP:FD"
    );
    cpu.index_register_y = 0x05;
    cpu.mem_write(0x0405, 0xBB);
    assert_eq!(
        trace(&cpu),
        "0064  11 33     ORA ($33),Y = 0400 @ 0405 = BB  A:00 X:00 Y:05 P:24 SP:FD"
    );
}

#[test]
fn test_trace_indirect_x() {
    let mut cpu = cpu_at(0x0064, &[0xA1, 0x80]);
    cpu.index_register_x = 0x02;
    cpu.mem_write(0x82, 0x00);
    cpu.mem_write(0x83, 0x03);
    cpu.mem_write(0x0300, 0x5B);
    assert_eq!(
        trace(&cpu),
        "0064  A1 80     LDA ($80,X) @ 82 = 0300 = 5B    A:00 X:02 Y:00 P:24 SP:FD"
    );
}

#[test]
fn test_trace_indirect_x_wraps_in_the_zero_page() {
    let mut cpu = cpu_at(0x0064, &[0xA1, 0xFF]);
    cpu.index_register_x = 0x00;
    cpu.mem_write(0xFF, 0x10);
    cpu.mem_write(0x00, 0x02);
    cpu.mem_write(0x0210, 0x99);
    assert_eq!(
        trace(&cpu),
        "0064  A1 FF     LDA ($FF,X) @ FF = 0210 = 99    A:00 X:00 Y:00 P:24 SP:FD"
    );
}

#[test]
fn test_trace_zero_page_indexed() {
    let mut cpu = cpu_at(0x0064, &[0xB5, 0x30]);
    cpu.index_register_x = 0x87;
    cpu.mem_write(0xB7, 0x00);
    assert_eq!(
        trace(&cpu),
        "0064  B5 30     LDA $30,X @ B7 = 00             A:00 X:87 Y:00 P:24 SP:FD"
    );
    let mut cpu = cpu_at(0x0064, &[0xB6, 0xF0]);
    cpu.index_register_y = 0x20;
    cpu.mem_write(0x10, 0x4D);
    assert_eq!(
        trace(&cpu),
        "0064  B6 F0     LDX $F0,Y @ 10 = 4D             A:00 X:00 Y:20 P:24 SP:FD"
    );
}

#[test]
fn test_trace_absolute() {
    let mut cpu = cpu_at(0x0064, &[0xAD, 0x00, 0x04]);
    cpu.mem_write(0x0400, 0xAA);
    assert_eq!(
        trace(&cpu),
        "0064  AD 00 04  LDA $0400 = AA                  A:00 X:00 Y:00 P:24 SP:FD"
    );
}

#[test]
fn test_trace_jumps_show_the_target_alone() {
    let cpu = cpu_at(0x0064, &[0x4C, 0xF5, 0xC5]);
    assert_eq!(
        trace(&cpu),
        "0064  4C F5 C5  JMP $C5F5                       A:00 X:00 Y:00 P:24 SP:FD"
    );
    let cpu = cpu_at(0x0064, &[0x20, 0x2D, 0xC7]);
    assert_eq!(
        trace(&cpu),
        "0064  20 2D C7  JSR $C72D                       A:00 X:00 Y:00 P:24 SP:FD"
    );
}

#[test]
fn test_trace_absolute_indexed() {
    let mut cpu = cpu_at(0x0064, &[0xBD, 0xFF, 0x03]);
    cpu.index_register_x = 0x02;
    cpu.mem_write(0x0401, 0xAA);
    assert_eq!(
        trace(&cpu),
        "0064  BD FF 03  LDA $03FF,X @ 0401 = AA         A:00 X:02 Y:00 P:24 SP:FD"
    );
    let mut cpu = cpu_at(0x0064, &[0xB9, 0xFF, 0xFF]);
    cpu.index_register_y = 0x34;
    cpu.mem_write(0x0033, 0xA3);
    assert_eq!(
        trace(&cpu),
        "0064  B9 FF FF  LDA $FFFF,Y @ 0033 = A3         A:00 X:00 Y:34 P:24 SP:FD"
    );
}

#[test]
fn test_trace_indirect_jump() {
    let mut cpu = cpu_at(0x0064, &[0x6C, 0x00, 0x02]);
    cpu.mem_write(0x0200, 0x7E);
    cpu.mem_write(0x0201, 0xDB);
    assert_eq!(
        trace(&cpu),
        "0064  6C 00 02  JMP ($0200) = DB7E              A:00 X:00 Y:00 P:24 SP:FD"
    );
}

#[test]
fn test_trace_indirect_jump_through_the_end_of_a_page() {
    let mut cpu = cpu_at(0x0064, &[0x6C, 0xFF, 0x02]);
    cpu.mem_write(0x02FF, 0x00);
    cpu.mem_write(0x0200, 0x03);
    cpu.mem_write(0x0300, 0xA9);
    assert_eq!(
        trace(&cpu),
        "0064  6C FF 02  JMP ($02FF) = 0300              A:00 X:00 Y:00 P:24 SP:FD"
    );
}

#[test]
fn test_trace_relative() {
    let cpu = cpu_at(0x0064, &[0xD0, 0x04]);
    assert_eq!(
        trace(&cpu),
        "0064  D0 04     BNE $006A                       A:00 X:00 Y:00 P:24 SP:FD"
    );
    let cpu = cpu_at(0x0064, &[0x90, 0xFC]);
    assert_eq!(
        trace(&cpu),
        "0064  90 FC     BCC $0062                       A:00 X:00 Y:00 P:24 SP:FD"
    );
}

#[test]
fn test_trace_accumulator_and_implied() {
    let mut cpu = cpu_at(0x0064, &[0x4A, 0xEA]);
    cpu.accumulator = 0xFF;
    cpu.status.insert(ProcessorStatus::NEGATIVE | ProcessorStatus::CARRY);
    cpu.stack_pointer = 0x0A;
    assert_eq!(
        trace(&cpu),
        "0064  4A        LSR A                           A:FF X:00 Y:00 P:A5 SP:0A"
    );
    cpu.program_counter = 0x0065;
    assert_eq!(
        trace(&cpu),
        "0065  EA        NOP                             A:FF X:00 Y:00 P:A5 SP:0A"
    );
}

#[test]
fn test_trace_unofficial_instruction() {
    let mut cpu = cpu_at(0x0064, &[0xA7, 0x67]);
    cpu.mem_write(0x67, 0x87);
    assert_eq!(
        trace(&cpu),
        "0064  A7 67     LAX $67 = 87                    A:00 X:00 Y:00 P:24 SP:FD"
    );
}

#[test]
fn test_trace_in_program_rom() {
    let mut cpu = CPU::new(Bus::new(test_rom(vec![])));
    cpu.load(vec![0xA9, 0x05, 0x00]);
    cpu.reset();
    assert_eq!(
        trace(&cpu),
        "8000  A9 05     LDA #$05                        A:00 X:00 Y:00 P:24 SP:FD"
    );
}

#[test]
fn test_trace_line_is_73_characters_wide() {
    let cpu = cpu_at(0x0064, &[0xEA]);
    assert_eq!(trace(&cpu).len(), 73);
    let mut cpu = cpu_at(0x0064, &[0x11, 0x33]);
    cpu.mem_write(0x34, 0x04);
    assert_eq!(trace(&cpu).len(), 73);
}
