use gameboy::cartridge::{Cartridge, CartridgeError, DestinationCode, RomHeader};
use gameboy::licensee::{new_licensee_name, old_licensee_name};

fn header_checksum(rom: &[u8]) -> u8 {
    let mut x: u8 = 0;
    for i in 0x0134..=0x014C {
        x = x.wrapping_sub(rom[i]).wrapping_sub(1);
    }
    x
}

fn tetris_rom() -> Vec<u8> {
    let mut rom = vec![0u8; 0x8000];
    rom[0x0134..0x013A].copy_from_slice(b"TETRIS");
    rom[0x014A] = 0x01;
    rom[0x014B] = 0x01;
    rom[0x014D] = header_checksum(&rom);
    rom
}

#[test]
fn header_parse_tetris() {
    let rom = tetris_rom();
    let cart = Cartridge::from_bytes(rom).unwrap();
    assert_eq!(cart.rom_header.title(), "TETRIS");
    assert_eq!(cart.rom_header.title, b"TETRIS".to_vec());
    assert!(cart.validate_header_checksum());
    assert_eq!(cart.rom_header.destination_code, DestinationCode::Overseas);
    assert_eq!(cart.rom_header.old_licensee_code, 0x01);
    assert!(!cart.rom_header.cgb_flag);
}

#[test]
fn header_fields() {
    let mut rom = tetris_rom();
    rom[0x0143] = 0xC0;
    rom[0x0144] = b'0';
    rom[0x0145] = b'1';
    rom[0x0146] = 0x03;
    rom[0x0147] = 0x01;
    rom[0x0148] = 0x01;
    rom[0x0149] = 0x02;
    rom[0x014A] = 0x00;
    rom[0x014C] = 0x07;
    rom[0x014E] = 0x12;
    rom[0x014F] = 0x34;
    let h = RomHeader::parse(&rom).unwrap();
    assert!(h.cgb_flag);
    assert!(h.sgb_flag);
    assert_eq!(h.new_licensee_code, (b'0', b'1'));
    assert_eq!(h.cartridge_type, 0x01);
    assert_eq!(h.rom_size, 0x01);
    assert_eq!(h.ram_size, 0x02);
    assert_eq!(h.destination_code, DestinationCode::Japan);
    assert_eq!(h.mask_rom_version_number, 0x07);
    assert_eq!(h.global_checksum, 0x1234);
    assert_eq!(h.logo.len(), 48);
}

#[test]
fn title_padding_trimmed_both_ends() {
    let mut rom = vec![0u8; 0x0150];
    rom[0x0136..0x0139].copy_from_slice(b"ABC");
    let h = RomHeader::parse(&rom).unwrap();
    assert_eq!(h.title(), "ABC");
    let empty = RomHeader::parse(&vec![0u8; 0x0150]).unwrap();
    assert_eq!(empty.title(), "");
}

#[test]
fn too_short_is_refused() {
    assert!(matches!(RomHeader::parse(&vec![0u8; 0x014F]), Err(CartridgeError::TooShort)));
    assert!(matches!(Cartridge::from_bytes(vec![0u8; 0x100]), Err(CartridgeError::TooShort)));
}

#[test]
fn bad_header_checksum_is_refused() {
    let mut rom = tetris_rom();
    rom[0x014D] = rom[0x014D].wrapping_add(1);
    assert!(matches!(Cartridge::from_bytes(rom), Err(CartridgeError::BadHeaderChecksum)));
}

#[test]
fn all_zero_header_checksum() {
    let mut rom = vec![0u8; 0x8000];
    rom[0x014D] = 0xE7;
    let cart = Cartridge::from_bytes(rom).unwrap();
    assert!(cart.validate_header_checksum());
}

#[test]
fn global_checksum() {
    let mut rom = tetris_rom();
    rom[0x2000] = 0xFF;
    let sum: u16 = rom
        .iter()
        .enumerate()
        .filter(|(i, _)| *i != 0x014E && *i != 0x014F)
        .fold(0u16, |acc, (_, b)| acc.wrapping_add(*b as u16));
    rom[0x014E] = (sum >> 8) as u8;
    rom[0x014F] = (sum & 0xFF) as u8;
    let cart = Cartridge::from_bytes(rom.clone()).unwrap();
    assert!(cart.validate_checksum());
    rom[0x3000] = 1;
    let changed = Cartridge::from_bytes(rom).unwrap();
    assert!(!changed.validate_checksum());
}

#[test]
fn licensee_lookups() {
    assert_eq!(old_licensee_name(0x01), Some("Nintendo"));
    assert_eq!(old_licensee_name(0xFF), Some("Ljn3"));
    assert_eq!(old_licensee_name(0x02), None);
    assert_eq!(new_licensee_name((b'0', b'1')), Some("NintendoResearchAndDevelopment1"));
    assert_eq!(new_licensee_name((b'A', b'4')), Some("KonamiYuGiOh"));
    assert_eq!(new_licensee_name((b'Z', b'Z')), None);
}

#[test]
fn header_licensee_name() {
    let mut rom = tetris_rom();
    let h = RomHeader::parse(&rom).unwrap();
    assert_eq!(h.licensee_name(), Some("Nintendo"));
    rom[0x014B] = 0x33;
    rom[0x0144] = b'3';
    rom[0x0145] = b'4';
    let h = RomHeader::parse(&rom).unwrap();
    assert_eq!(h.licensee_name(), Some("Konami"));
}

#[test]
fn non_ascii_title_is_replaced() {
    let mut rom = vec![0u8; 0x0150];
    rom[0x0134] = b'A';
    rom[0x0135] = 0xFF;
    let h = RomHeader::parse(&rom).unwrap();
    assert_eq!(h.title(), "A\u{FFFD}");
}
