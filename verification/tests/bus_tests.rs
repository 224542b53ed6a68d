use famicom_emulator::bus::Bus;
use famicom_emulator::cpu::Mem;
use famicom_emulator::rom::test::test_rom;
use famicom_emulator::rom::{Mirroring, Rom, PRG_ROM_PAGE_SIZE};

fn test_bus() -> Bus {
    Bus::new(test_rom(vec![]))
}

/// A cartridge with one page of program ROM whose byte at `i` is `i % 253`.
fn one_page_rom() -> Rom {
    Rom {
        prg_rom: (0..PRG_ROM_PAGE_SIZE).map(|i| (i % 253) as u8).collect(),
        chr_rom: vec![],
        mapper: 0,
        screen_mirroring: Mirroring::HORIZONTAL,
    }
}

/// A cartridge with two pages of program ROM whose byte at `i` is `i % 251`.
fn two_page_rom() -> Rom {
    Rom {
        prg_rom: (0..2 * PRG_ROM_PAGE_SIZE).map(|i| (i % 251) as u8).collect(),
        chr_rom: vec![],
        mapper: 0,
        screen_mirroring: Mirroring::HORIZONTAL,
    }
}

#[test]
fn test_mem_read_ram() {
    let bus = test_bus();
    let addr = 0x0000;
    let data = bus.mem_read(addr);
    assert_eq!(data, 0);
}

#[test]
fn test_mem_read_ram_mirror() {
    let bus = test_bus();
    let addr = 0x0800;
    let data = bus.mem_read(addr);
    assert_eq!(data, 0);
}

#[test]
fn test_mem_write_ram() {
    let mut bus = test_bus();
    let addr = 0x0000;
    let data = 0x42;
    bus.mem_write(addr, data);
    assert_eq!(bus.cpu_vram[0], data);
}

#[test]
fn test_mem_write_ram_mirror() {
    let mut bus = test_bus();
    let addr = 0x0800;
    let data = 0x42;
    bus.mem_write(addr, data);
    assert_eq!(bus.cpu_vram[0], data);
}

#[test]
fn test_new_bus_has_zeroed_ram_and_keeps_the_rom() {
    let bus = test_bus();
    assert!(bus.cpu_vram.iter().all(|&b| b == 0));
    assert_eq!(bus.rom.prg_rom.len(), 2 * PRG_ROM_PAGE_SIZE);
    assert_eq!(bus.rom.mapper, 3);
}

#[test]
fn test_write_then_read_everywhere_in_ram() {
    let mut bus = test_bus();
    for addr in 0x0000..=0x1FFFu16 {
        let data = (addr % 251) as u8 ^ 0x5A;
        bus.mem_write(addr, data);
        assert_eq!(bus.mem_read(addr), data);
    }
}

#[test]
fn test_ram_is_seen_four_times() {
    let mut bus = test_bus();
    bus.mem_write(0x07FF, 0x11);
    assert_eq!(bus.mem_read(0x07FF), 0x11);
    assert_eq!(bus.mem_read(0x0FFF), 0x11);
    assert_eq!(bus.mem_read(0x17FF), 0x11);
    assert_eq!(bus.mem_read(0x1FFF), 0x11);
    bus.mem_write(0x1803, 0x22);
    assert_eq!(bus.mem_read(0x0003), 0x22);
    assert_eq!(bus.cpu_vram[3], 0x22);
    assert_eq!(bus.mem_read(0x0004), 0x00);
}

#[test]
fn test_writes_to_program_rom_are_dropped() {
    let mut bus = Bus::new(two_page_rom());
    for addr in [0x8000u16, 0x8001, 0xBFFF, 0xC000, 0xFFFC, 0xFFFF] {
        let before = bus.mem_read(addr);
        bus.mem_write(addr, before.wrapping_add(1));
        assert_eq!(bus.mem_read(addr), before);
    }
    assert!(bus.cpu_vram.iter().all(|&b| b == 0));
    assert_eq!(bus.rom.prg_rom, two_page_rom().prg_rom);
}

#[test]
fn test_two_pages_fill_the_window() {
    let bus = Bus::new(two_page_rom());
    assert_eq!(bus.mem_read(0x8000), 0);
    assert_eq!(bus.mem_read(0x8001), 1);
    assert_eq!(bus.mem_read(0xC000), (0x4000 % 251) as u8);
    assert_eq!(bus.mem_read(0xFFFF), (0x7FFF % 251) as u8);
}

#[test]
fn test_one_page_is_seen_twice() {
    let bus = Bus::new(one_page_rom());
    assert_eq!(bus.mem_read(0x8000), 0);
    assert_eq!(bus.mem_read(0xC000), 0);
    assert_eq!(bus.mem_read(0x8005), 5);
    assert_eq!(bus.mem_read(0xC005), 5);
    assert_eq!(bus.mem_read(0xBFFF), (0x3FFF % 253) as u8);
    assert_eq!(bus.mem_read(0xFFFF), (0x3FFF % 253) as u8);
}

#[test]
fn test_ppu_registers_are_stubs() {
    let mut bus = test_bus();
    for addr in [0x2000u16, 0x2007, 0x2008, 0x3456, 0x3FFF] {
        bus.mem_write(addr, 0x77);
        assert_eq!(bus.mem_read(addr), 0);
    }
    assert!(bus.cpu_vram.iter().all(|&b| b == 0));
}

#[test]
fn test_unmapped_addresses_read_zero_and_drop_writes() {
    let mut bus = test_bus();
    for addr in [0x4000u16, 0x4017, 0x5228, 0x6000, 0x7FFF] {
        bus.mem_write(addr, 0x77);
        assert_eq!(bus.mem_read(addr), 0);
    }
    assert!(bus.cpu_vram.iter().all(|&b| b == 0));
}

#[test]
fn test_words_are_little_endian() {
    let mut bus = test_bus();
    bus.mem_write_u16(0x0010, 0xABCD);
    assert_eq!(bus.mem_read(0x0010), 0xCD);
    assert_eq!(bus.mem_read(0x0011), 0xAB);
    assert_eq!(bus.mem_read_u16(0x0010), 0xABCD);
}

#[test]
fn test_word_at_the_last_address_takes_its_high_byte_from_address_zero() {
    let mut rom = two_page_rom();
    rom.prg_rom[0x7FFF] = 0x34;
    let mut bus = Bus::new(rom);
    bus.mem_write(0x0000, 0x12);
    assert_eq!(bus.mem_read_u16(0xFFFF), 0x1234);
}

#[test]
fn test_word_across_the_end_of_ram() {
    let mut bus = test_bus();
    bus.mem_write_u16(0x1FFF, 0xBEEF);
    // The low byte lands in the last cell of RAM; the high byte goes to
    // 0x2000, a register of the PPU, and is dropped.
    assert_eq!(bus.cpu_vram[0x07FF], 0xEF);
    assert_eq!(bus.mem_read_u16(0x1FFF), 0x00EF);
}
