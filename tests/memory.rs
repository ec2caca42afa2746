use nes_core::memory::{ppu_register, Bus, Mem};

fn single_bank() -> Bus {
    let mut prg = vec![0u8; 0x4000];
    prg[0] = 0xab;
    prg[0x3fff] = 0xcd;
    Bus::new(prg)
}

#[test]
fn ram_write_is_mirrored() {
    let mut bus = single_bank();
    bus.mem_write(0x0000, 0x5a);
    assert_eq!(bus.mem_read(0x0800), 0x5a);
    assert_eq!(bus.mem_read(0x1000), 0x5a);
    assert_eq!(bus.mem_read(0x1800), 0x5a);
    bus.mem_write(0x1fff, 0x11);
    assert_eq!(bus.mem_read(0x07ff), 0x11);
}

#[test]
fn single_bank_appears_twice() {
    let bus = single_bank();
    assert_eq!(bus.mem_read(0x8000), 0xab);
    assert_eq!(bus.mem_read(0xc000), 0xab);
    assert_eq!(bus.mem_read(0xbfff), 0xcd);
    assert_eq!(bus.mem_read(0xffff), 0xcd);
    assert_eq!(bus.read_prg_rom(0xc000), 0xab);
}

#[test]
fn two_banks_are_not_mirrored() {
    let mut prg = vec![0u8; 0x8000];
    prg[0] = 1;
    prg[0x4000] = 2;
    let bus = Bus::new(prg);
    assert_eq!(bus.mem_read(0x8000), 1);
    assert_eq!(bus.mem_read(0xc000), 2);
}

#[test]
fn rom_cannot_be_written() {
    let mut bus = single_bank();
    bus.mem_write(0x8000, 0x00);
    assert_eq!(bus.mem_read(0x8000), 0xab);
}

#[test]
fn unwired_and_ppu_ranges_read_zero() {
    let mut bus = single_bank();
    bus.mem_write(0x6000, 0x12);
    assert_eq!(bus.mem_read(0x6000), 0);
    assert_eq!(bus.mem_read(0x4020), 0);
    bus.mem_write(0x2000, 0x12);
    assert_eq!(bus.mem_read(0x2000), 0);
}

#[test]
fn ppu_window_decodes_to_eight_registers() {
    assert_eq!(ppu_register(0x2000), 0x2000);
    assert_eq!(ppu_register(0x2008), 0x2000);
    assert_eq!(ppu_register(0x3fff), 0x2007);
    assert_eq!(ppu_register(0x2345), 0x2005);
}

#[test]
fn words_are_little_endian() {
    let mut bus = single_bank();
    bus.mem_write_u16(0x0010, 0x1234);
    assert_eq!(bus.mem_read(0x0010), 0x34);
    assert_eq!(bus.mem_read(0x0011), 0x12);
    assert_eq!(bus.mem_read_u16(0x0010), 0x1234);
}

#[test]
fn word_read_wraps_at_top_of_address_space() {
    let mut bus = single_bank();
    bus.mem_write(0x0000, 0x77);
    // low byte from 0xFFFF (last ROM byte), high byte from 0x0000
    assert_eq!(bus.mem_read_u16(0xffff), 0x77cd);
}
