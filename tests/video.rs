use gameboy::bus::Bus;
use gameboy::cartridge::{Cartridge, RomHeader};
use gameboy::emu::Context;
use gameboy::lcd::{Lcd, BUFFER_SIZE};
use gameboy::ppu::PPU;
use gameboy::tile::Tile;
use gameboy::timer::Timer;

fn cartridge_of(rom: Vec<u8>) -> Cartridge {
    let rom_header = RomHeader::parse(&rom).unwrap();
    Cartridge { rom_data: rom, rom_header }
}

fn bus() -> Bus {
    Bus::new(cartridge_of(vec![0u8; 0x8000]))
}

#[test]
fn tile_decode_known_row() {
    let mut bytes = vec![0u8; 16];
    bytes[0] = 0x3C;
    bytes[1] = 0x7E;
    let tile = Tile::decode(&bytes);
    assert_eq!(tile.get_row(0), vec![0, 2, 3, 3, 3, 3, 2, 0]);
    assert_eq!(tile.get_row(1), vec![0; 8]);
}

#[test]
fn tile_values_in_range_and_round_trip() {
    let bytes: Vec<u8> = (0..16u8).map(|i| i.wrapping_mul(37).wrapping_add(11)).collect();
    let tile = Tile::decode(&bytes);
    for row in 0..8 {
        assert!(tile.get_row(row).iter().all(|p| *p < 4));
    }
    assert_eq!(tile.encode(), bytes);
    let pixels: Vec<u8> = (0..64u8).map(|i| (i * 7 + i / 3) % 4).collect();
    let t = Tile::from_pixels(pixels.clone());
    let again = Tile::decode(&t.encode());
    for row in 0..8 {
        assert_eq!(again.get_row(row), pixels[8 * row..8 * row + 8].to_vec());
    }
}

#[test]
fn tile_read_from_vram() {
    let mut b = bus();
    b.write_byte(0x8010, 0xFF);
    b.write_byte(0x8011, 0x00);
    let tile = Tile::new(&b, 0x8010);
    assert_eq!(tile.get_row(0), vec![1; 8]);
}

#[test]
fn palette_decoding() {
    let mut b = bus();
    b.write_byte(0xFF47, 0xE4);
    let lcd = Lcd::new();
    assert_eq!(lcd.get_background_palette(&b), [0, 1, 2, 3]);
    b.write_byte(0xFF47, 0x1B);
    assert_eq!(lcd.get_background_palette(&b), [3, 2, 1, 0]);
}

#[test]
fn lcdc_area_selects() {
    let mut b = bus();
    let lcd = Lcd::new();
    b.write_byte(0xFF40, 0x00);
    assert_eq!(lcd.get_bg_window_tile_data_area_start(&b), 0x9000);
    assert_eq!(lcd.get_bg_tile_map_area_start(&b), 0x9800);
    assert!(!lcd.is_bg_window_enabled(&b));
    b.write_byte(0xFF40, 0x19);
    assert_eq!(lcd.get_bg_window_tile_data_area_start(&b), 0x8000);
    assert_eq!(lcd.get_bg_tile_map_area_start(&b), 0x9C00);
    assert!(lcd.is_bg_window_enabled(&b));
}

#[test]
fn lcd_disabled_holds_line_zero() {
    let mut b = bus();
    let mut lcd = Lcd::new();
    b.privileged_io_write(0xFF44, 0x20);
    assert!(!lcd.update_graphics(&mut b, 500));
    assert_eq!(b.read_byte(0xFF44), 0);
    assert_eq!(b.read_byte(0xFF41) & 0x03, 1);
}

#[test]
fn vblank_cadence() {
    let mut b = bus();
    b.write_byte(0xFF40, 0x80);
    let mut lcd = Lcd::new();
    let mut raised = 0;
    let mut frames = 0;
    // 114 M-cycles are one 456 T-cycle scanline.
    for line in 0..154u32 {
        assert_eq!(b.read_byte(0xFF44) as u32, line % 154);
        for _ in 0..114 {
            let before = b.read_byte(0xFF0F) & 1;
            if lcd.update_graphics(&mut b, 1) {
                frames += 1;
            }
            let after = b.read_byte(0xFF0F) & 1;
            if before == 0 && after == 1 {
                raised += 1;
            }
        }
    }
    assert_eq!(b.read_byte(0xFF44), 0);
    assert_eq!(raised, 1);
    assert_eq!(frames, 1);
}

#[test]
fn stat_modes_and_interrupt() {
    let mut b = bus();
    b.write_byte(0xFF40, 0x80);
    // Enable the HBlank (mode 0) STAT source.
    b.write_byte(0xFF41, 0x08);
    let mut lcd = Lcd::new();
    lcd.update_graphics(&mut b, 1);
    assert_eq!(b.read_byte(0xFF41) & 0x03, 2);
    lcd.update_graphics(&mut b, 20);
    assert_eq!(b.read_byte(0xFF41) & 0x03, 3);
    assert_eq!(b.read_byte(0xFF0F) & 0x02, 0);
    lcd.update_graphics(&mut b, 43);
    assert_eq!(b.read_byte(0xFF41) & 0x03, 0);
    assert_eq!(b.read_byte(0xFF0F) & 0x02, 0x02);
    assert_eq!(b.read_byte(0xFF41) & 0x80, 0);
}

#[test]
fn lyc_coincidence_flag() {
    let mut b = bus();
    b.write_byte(0xFF40, 0x80);
    b.write_byte(0xFF45, 0x01);
    b.write_byte(0xFF41, 0x40);
    let mut lcd = Lcd::new();
    lcd.update_graphics(&mut b, 1);
    assert_eq!(b.read_byte(0xFF41) & 0x04, 0);
    lcd.update_graphics(&mut b, 114);
    assert_eq!(b.read_byte(0xFF44), 1);
    assert_eq!(b.read_byte(0xFF41) & 0x04, 0x04);
    assert_eq!(b.read_byte(0xFF0F) & 0x02, 0x02);
}

#[test]
fn timer_fast_clock() {
    let mut b = bus();
    b.write_byte(0xFF07, 0x05);
    let mut t = Timer::new();
    t.update_timer(&mut b, 3);
    assert_eq!(b.read_byte(0xFF05), 0);
    t.update_timer(&mut b, 1);
    assert_eq!(b.read_byte(0xFF05), 1);
    t.update_timer(&mut b, 40);
    assert_eq!(b.read_byte(0xFF05), 11);
    b.write_byte(0xFF05, 0xFF);
    b.write_byte(0xFF06, 0x42);
    t.update_timer(&mut b, 4);
    assert_eq!(b.read_byte(0xFF05), 0x42);
    assert_eq!(b.read_byte(0xFF0F) & 0x04, 0x04);
}

#[test]
fn timer_disabled_and_divider() {
    let mut b = bus();
    b.write_byte(0xFF07, 0x01);
    let mut t = Timer::new();
    t.update_timer(&mut b, 63);
    assert_eq!(b.read_byte(0xFF04), 0);
    t.update_timer(&mut b, 1);
    assert_eq!(b.read_byte(0xFF04), 1);
    assert_eq!(b.read_byte(0xFF05), 0);
    t.update_timer(&mut b, 64 * 300);
    assert_eq!(b.read_byte(0xFF04), ((1 + 300) % 256) as u8);
}

#[test]
fn timer_slow_clock() {
    let mut b = bus();
    b.write_byte(0xFF07, 0x04);
    let mut t = Timer::new();
    t.update_timer(&mut b, 255);
    assert_eq!(b.read_byte(0xFF05), 0);
    t.update_timer(&mut b, 1);
    assert_eq!(b.read_byte(0xFF05), 1);
}

#[test]
fn render_disabled_background_is_white() {
    let b = bus();
    let lcd = Lcd::new();
    let frame = PPU::new().render_bg(&b, &lcd);
    assert_eq!(frame.len(), BUFFER_SIZE);
    assert!(frame.iter().all(|v| *v == 0xFF));
}

#[test]
fn render_tiles_through_palette() {
    let mut b = bus();
    // LCDC: BG on, unsigned tile data at 0x8000, map at 0x9800.
    b.write_byte(0xFF40, 0x91);
    b.write_byte(0xFF47, 0xE4);
    // Tile 1: every pixel colour 3. Map entry (0, 1) uses tile 1.
    for i in 0..16 {
        b.write_byte(0x8010 + i, 0xFF);
    }
    b.write_byte(0x9801, 1);
    let lcd = Lcd::new();
    let frame = PPU::new().render_bg(&b, &lcd);
    let px = |x: usize, y: usize| frame[4 * (160 * y + x)..4 * (160 * y + x) + 4].to_vec();
    assert_eq!(px(0, 0), vec![0xFF, 0xFF, 0xFF, 0xFF]);
    assert_eq!(px(8, 0), vec![0x00, 0x00, 0x00, 0xFF]);
    assert_eq!(px(15, 7), vec![0x00, 0x00, 0x00, 0xFF]);
    assert_eq!(px(16, 0), vec![0xFF, 0xFF, 0xFF, 0xFF]);
    // Scrolling right by 8 brings tile 1 to the left edge.
    b.write_byte(0xFF43, 8);
    let scrolled = PPU::new().render_bg(&b, &lcd);
    assert_eq!(scrolled[0..4].to_vec(), vec![0x00, 0x00, 0x00, 0xFF]);
}

#[test]
fn render_signed_tile_indices() {
    let mut b = bus();
    // LCDC: BG on, signed tile data around 0x9000.
    b.write_byte(0xFF40, 0x81);
    b.write_byte(0xFF47, 0xE4);
    // Index 0xFF is the tile at 0x8FF0; its first row has colour 1 everywhere.
    b.write_byte(0x8FF0, 0xFF);
    b.write_byte(0x9800, 0xFF);
    let lcd = Lcd::new();
    let frame = PPU::new().render_bg(&b, &lcd);
    assert_eq!(frame[0..4].to_vec(), vec![0xAA, 0xAA, 0xAA, 0xFF]);
    assert_eq!(frame[4 * 160..4 * 160 + 4].to_vec(), vec![0xFF, 0xFF, 0xFF, 0xFF]);
}

#[test]
fn vblank_frame() {
    let mut ctx = Context::new(cartridge_of(vec![0u8; 0x8000]));
    ctx.cpu.bus.write_byte(0xFF40, 0x91);
    ctx.cpu.bus.write_byte(0xFF47, 0xE4);
    ctx.start();
    assert!(ctx.is_running);
    let mut raised = 0;
    let mut frame = None;
    for _ in 0..100_000 {
        let before = ctx.cpu.bus.read_byte(0xFF0F) & 1;
        let out = ctx.step();
        let after = ctx.cpu.bus.read_byte(0xFF0F) & 1;
        if before == 0 && after == 1 {
            raised += 1;
        }
        if out.is_some() {
            frame = out;
            break;
        }
    }
    let frame = frame.expect("a frame is emitted");
    assert_eq!(frame.len(), 160 * 144 * 4);
    assert_eq!(raised, 1);
}

#[test]
fn paused_context_does_nothing() {
    let mut ctx = Context::new(cartridge_of(vec![0u8; 0x8000]));
    ctx.start();
    ctx.pause();
    assert!(ctx.step().is_none());
    assert_eq!(ctx.cpu.registers.pc, 0x0100);
    assert_eq!(ctx.ticks, 1);
    ctx.start();
    assert!(ctx.step().is_none());
    assert_eq!(ctx.cpu.registers.pc, 0x0101);
    assert_eq!(ctx.ticks, 2);
    ctx.stop();
    assert!(!ctx.is_running);
}
