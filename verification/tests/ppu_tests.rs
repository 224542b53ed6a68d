use famicom_emulator::ppu::register::addr::AddrRegister;
use famicom_emulator::ppu::register::constans::{
    chr_rom_0_range, chr_rom_1_range, chr_rom_range, name_table_0_range, name_table_1_range,
    name_table_2_range, name_table_3_range, name_table_mirror_range, name_table_range,
    pallet_ram_index_range, pallet_ram_mirror_range, ppu_mem_range, ONE_KB,
};
use std::ops::Bound;

#[test]
fn test_new() {
    let addr_reg = AddrRegister::new();
    assert_eq!(addr_reg.value, (0, 0));
    assert_eq!(addr_reg.hi_ptr, true);
}

#[test]
fn test_set_get() {
    let mut addr_reg = AddrRegister::new();
    addr_reg.set(0xABCD);
    assert_eq!(addr_reg.get(), 0xABCD);
}

#[test]
fn test_update() {
    let mut addr_reg = AddrRegister::new();
    addr_reg.update(0x12);
    assert_eq!(addr_reg.value, (0x12, 0));
    assert_eq!(addr_reg.hi_ptr, false);
    addr_reg.update(0x34);
    assert_eq!(addr_reg.value, (0x12, 0x34));
    assert_eq!(addr_reg.hi_ptr, true);
}

#[test]
fn test_increment() {
    let mut addr_reg = AddrRegister::new();
    addr_reg.set(0x1234);
    addr_reg.increment(1);
    assert_eq!(addr_reg.get(), 0x1235);
    addr_reg.increment(0xFF);
    assert_eq!(addr_reg.get(), 0x1334);
}

#[test]
fn test_reset_latch() {
    let mut addr_reg = AddrRegister::new();
    addr_reg.hi_ptr = false;
    addr_reg.reset_latch();
    assert_eq!(addr_reg.hi_ptr, true);
}

#[test]
fn test_toggle_latch() {
    let mut addr_reg = AddrRegister::new();
    addr_reg.toggle_latch();
    assert_eq!(addr_reg.hi_ptr, false);
    addr_reg.toggle_latch();
    assert_eq!(addr_reg.hi_ptr, true);
}

#[test]
fn test_mirror_down() {
    let mut addr_reg = AddrRegister::new();
    addr_reg.set(0x3FFF);
    addr_reg.mirror_down();
    assert_eq!(addr_reg.get(), 0x3FFF);
    addr_reg.set(0x4000);
    addr_reg.mirror_down();
    assert_eq!(addr_reg.get(), 0x0000);
}

#[test]
fn test_is_mirror_down() {
    let mut addr_reg = AddrRegister::new();
    addr_reg.set(0x3FFF);
    assert_eq!(addr_reg.is_mirror_down(), false);
    addr_reg.set(0x4000);
    assert_eq!(addr_reg.is_mirror_down(), true);
}

#[test]
fn test_chr_rom_range() {
    assert_eq!(chr_rom_range().start_bound(), Bound::Included(&0x0000));
    assert_eq!(chr_rom_range().end_bound(), Bound::Included(&0x1FFF));
}

#[test]
fn test_contain_for_chr_rom_range() {
    assert_eq!(chr_rom_range().contains(&chr_rom_range().start), true);
    assert_eq!(chr_rom_range().contains(&(chr_rom_range().end / 2)), true);
    assert_eq!(chr_rom_range().contains(&chr_rom_range().end), true);
    assert_eq!(chr_rom_range().contains(&(chr_rom_range().end + 1)), false);
}

#[test]
fn test_update_brings_the_address_down() {
    let mut addr_reg = AddrRegister::new();
    addr_reg.update(0x7F);
    assert_eq!(addr_reg.value, (0x3F, 0x00));
    addr_reg.update(0xFF);
    assert_eq!(addr_reg.get(), 0x3FFF);
    assert_eq!(addr_reg.hi_ptr, true);
}

#[test]
fn test_increment_wraps_at_the_end_of_the_address_space() {
    let mut addr_reg = AddrRegister::new();
    addr_reg.set(0x3FFF);
    addr_reg.increment(1);
    assert_eq!(addr_reg.get(), 0x0000);
    addr_reg.set(0x3FE0);
    addr_reg.increment(32);
    assert_eq!(addr_reg.get(), 0x0000);
    addr_reg.set(0xFFFF);
    addr_reg.increment(1);
    assert_eq!(addr_reg.get(), 0x0000);
    addr_reg.set(0x00FF);
    addr_reg.increment(1);
    assert_eq!(addr_reg.value, (0x01, 0x00));
}

#[test]
fn test_set_keeps_the_latch() {
    let mut addr_reg = AddrRegister::new();
    addr_reg.toggle_latch();
    addr_reg.set(0x2345);
    assert_eq!(addr_reg.value, (0x23, 0x45));
    assert_eq!(addr_reg.hi_ptr, false);
}

#[test]
fn test_address_map() {
    let expected: [(u16, u16); 12] = [
        (0x0000, 0x3FFF),
        (0x0000, 0x1FFF),
        (0x0000, 0x0FFF),
        (0x1000, 0x1FFF),
        (0x2000, 0x2FFF),
        (0x2000, 0x23FF),
        (0x2400, 0x27FF),
        (0x2800, 0x2BFF),
        (0x2C00, 0x2FFF),
        (0x3000, 0x3EFF),
        (0x3F00, 0x3F1F),
        (0x3F20, 0x3FFF),
    ];
    let ranges = [
        ppu_mem_range(),
        chr_rom_range(),
        chr_rom_0_range(),
        chr_rom_1_range(),
        name_table_range(),
        name_table_0_range(),
        name_table_1_range(),
        name_table_2_range(),
        name_table_3_range(),
        name_table_mirror_range(),
        pallet_ram_index_range(),
        pallet_ram_mirror_range(),
    ];
    for (range, (start, end)) in ranges.iter().zip(expected.iter()) {
        assert_eq!(range.start, *start);
        assert_eq!(range.end, *end);
    }
    assert_eq!(ONE_KB, 1024);
}

#[test]
fn test_contains_below_the_start() {
    assert_eq!(name_table_1_range().contains(&0x23FF), false);
    assert_eq!(name_table_1_range().contains(&0x2400), true);
    assert_eq!(name_table_1_range().contains(&0x27FF), true);
    assert_eq!(name_table_1_range().contains(&0x2800), false);
}
