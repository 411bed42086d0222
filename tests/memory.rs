use gameboy::bus::Bus;
use gameboy::cartridge::{Cartridge, RomHeader};
use gameboy::interrupts::{
    acknowledge_interrupt, get_interrupt_address, get_requested_interrupt, request_interrupt,
    InterruptType,
};
use gameboy::mapper::{get_mapper, Mapper, Mbc1};
use gameboy::utils::test_bit;

fn cartridge_of(rom: Vec<u8>) -> Cartridge {
    let rom_header = RomHeader::parse(&rom).unwrap();
    Cartridge { rom_data: rom, rom_header }
}

fn bus() -> Bus {
    Bus::new(cartridge_of(vec![0u8; 0x8000]))
}

#[test]
fn unusable_area_reads_ff() {
    let mut b = bus();
    for addr in 0xFEA0u16..=0xFEFF {
        b.write_byte(addr, 0x12);
        assert_eq!(b.read_byte(addr), 0xFF);
    }
}

#[test]
fn div_write_resets() {
    let mut b = bus();
    b.privileged_io_write(0xFF04, 0x7A);
    assert_eq!(b.read_byte(0xFF04), 0x7A);
    b.write_byte(0xFF04, 0x55);
    assert_eq!(b.read_byte(0xFF04), 0);
}

#[test]
fn ly_is_read_only() {
    let mut b = bus();
    b.privileged_io_write(0xFF44, 0x10);
    b.write_byte(0xFF44, 0x99);
    assert_eq!(b.read_byte(0xFF44), 0x10);
}

#[test]
fn stat_write_keeps_mode_bits() {
    let mut b = bus();
    b.privileged_io_write(0xFF41, 0x06);
    b.write_byte(0xFF41, 0xFF);
    assert_eq!(b.read_byte(0xFF41), 0x7E);
}

#[test]
fn echo_ram_mirrors_work_ram() {
    let mut b = bus();
    b.write_byte(0xC005, 0xAB);
    assert_eq!(b.read_byte(0xE005), 0xAB);
    b.write_byte(0xFDFF, 0xCD);
    assert_eq!(b.read_byte(0xDDFF), 0xCD);
}

#[test]
fn memory_regions_round_trip() {
    let mut b = bus();
    for addr in [0x8000u16, 0x9FFF, 0xC000, 0xDFFF, 0xFE00, 0xFE9F, 0xFF80, 0xFFFE, 0xFFFF] {
        b.write_byte(addr, 0x5A);
        assert_eq!(b.read_byte(addr), 0x5A, "address {:04X}", addr);
    }
}

#[test]
fn word_access_is_little_endian() {
    let mut b = bus();
    b.write_word(0xC100, 0xBEEF);
    assert_eq!(b.read_byte(0xC100), 0xEF);
    assert_eq!(b.read_byte(0xC101), 0xBE);
    assert_eq!(b.read_word(0xC100), 0xBEEF);
}

#[test]
fn external_ram_needs_enable() {
    let mut b = bus();
    b.write_byte(0xA000, 0x11);
    assert_eq!(b.read_byte(0xA000), 0xFF);
    b.write_byte(0x0000, 0x0A);
    b.write_byte(0xA000, 0x22);
    assert_eq!(b.read_byte(0xA000), 0x22);
    b.write_byte(0x1000, 0x1B);
    assert_eq!(b.read_byte(0xA000), 0xFF);
}

#[test]
fn rom_bank_switching() {
    let mut rom = vec![0u8; 0x10000];
    rom[0x0000] = 0xA0;
    rom[0x4000] = 0xA1;
    rom[0x8000] = 0xA2;
    rom[0xC000] = 0xA3;
    let mut m = Mbc1::new(cartridge_of(rom));
    assert_eq!(m.read(0x0000), 0xA0);
    assert_eq!(m.read(0x4000), 0xA1);
    m.write(0x2000, 0x02);
    assert_eq!(m.read(0x4000), 0xA2);
    m.write(0x2000, 0x00);
    assert_eq!(m.read(0x4000), 0xA1);
    m.write(0x2000, 0x07);
    assert_eq!(m.read(0x4000), 0xA3);
}

#[test]
fn mapper_trait_and_constructor() {
    let mut rom = vec![0u8; 0x8000];
    rom[0x4001] = 0x77;
    let mut m = get_mapper(cartridge_of(rom.clone()));
    assert_eq!(Mapper::read(&m, 0x4001), 0x77);
    Mapper::write(&mut m, 0x0000, 0x0A);
    Mapper::write(&mut m, 0xB000, 0x33);
    assert_eq!(Mapper::read(&m, 0xB000), 0x33);
    let n: Mbc1 = Mapper::new(cartridge_of(rom));
    assert_eq!(Mapper::read(&n, 0xA000), 0xFF);
}

#[test]
fn requested_interrupt_priority() {
    assert_eq!(get_requested_interrupt(0x00), None);
    assert_eq!(get_requested_interrupt(0x1F), Some(InterruptType::VBlank));
    assert_eq!(get_requested_interrupt(0x06), Some(InterruptType::LCDStat));
    assert_eq!(get_requested_interrupt(0x0C), Some(InterruptType::Timer));
    assert_eq!(get_requested_interrupt(0x08), Some(InterruptType::Serial));
    assert_eq!(get_requested_interrupt(0x10), Some(InterruptType::Joypad));
    assert_eq!(get_requested_interrupt(0xE0), None);
}

#[test]
fn interrupt_addresses() {
    let pairs = [
        (InterruptType::VBlank, 0x40u16),
        (InterruptType::LCDStat, 0x48),
        (InterruptType::Timer, 0x50),
        (InterruptType::Serial, 0x58),
        (InterruptType::Joypad, 0x60),
    ];
    for (i, addr) in pairs {
        assert_eq!(get_interrupt_address(i).address(), addr);
    }
}

#[test]
fn request_reads_and_writes_if() {
    let mut b = bus();
    b.write_byte(0xFFFF, 0x00);
    b.write_byte(0xFF0F, 0x01);
    request_interrupt(&mut b, InterruptType::Timer);
    assert_eq!(b.read_byte(0xFF0F), 0x05);
    assert_eq!(b.read_byte(0xFFFF), 0x00);
    acknowledge_interrupt(&mut b, 0x05, InterruptType::VBlank);
    assert_eq!(b.read_byte(0xFF0F), 0x04);
}

#[test]
fn test_bit_values() {
    assert!(test_bit(0x80, 7));
    assert!(!test_bit(0x80, 6));
    assert!(test_bit(0x01, 0));
    assert!(!test_bit(0xFE, 0));
}
