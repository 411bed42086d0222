//! Background rendering into an RGBA frame of 160x144 pixels.
use vstd::prelude::*;
use crate::bus::{Bus, BusView};
use crate::lcd::{Lcd, shade_of, BUFFER_SIZE, SCREEN_WIDTH, SCREEN_HEIGHT};
use crate::tile::{pixel_of, lemma_pixel_range};
use crate::utils::{bit_of, signed8};

verus! {

/// Bytes in a background tile map: a 32x32 grid of tile indices.
pub const TILE_MAP_AREA_SIZE: usize = 0x0400;

/// Start of the BG tile map that LCDC bit 3 selects.
pub open spec fn bg_map_start(bus: BusView) -> int {
    if bit_of(bus.io[0x40], 3) {
        0x9C00
    } else {
        0x9800
    }
}

/// Address of tile `index`: 0x8000 + 16 * index when LCDC bit 4 is set,
/// else 0x9000 + 16 * index read as a signed byte.
pub open spec fn bg_tile_addr(bus: BusView, index: u8) -> int {
    if bit_of(bus.io[0x40], 4) {
        0x8000 + index * 16
    } else {
        0x9000 + signed8(index) * 16
    }
}

/// Colour index of screen pixel (x, y) of the background, scrolled by
/// SCX/SCY with wrap-around on the 256x256 plane.
pub open spec fn bg_color_id(bus: BusView, x: int, y: int) -> u8 {
    let py = (y + bus.io[0x42]) % 256;
    let px = (x + bus.io[0x43]) % 256;
    let index = bus.read((bg_map_start(bus) + (py / 8) * 32 + px / 8) as u16);
    let row = bg_tile_addr(bus, index) + 2 * (py % 8);
    pixel_of(bus.read(row as u16), bus.read((row + 1) as u16), (px % 8) as u8)
}

/// System palette index of screen pixel (x, y): the BGP shade of its
/// colour index, or 0 everywhere when LCDC bit 0 is clear.
pub open spec fn bg_shade(bus: BusView, x: int, y: int) -> u8 {
    if bit_of(bus.io[0x40], 0) {
        shade_of(bus.io[0x47], bg_color_id(bus, x, y))
    } else {
        0
    }
}

/// Channel `c` (R, G, B, A) of system palette entry `shade`: four greys
/// from white to black, opaque.
pub open spec fn color_channel(shade: u8, c: int) -> u8 {
    if c == 3 {
        0xFF
    } else if shade == 0 {
        0xFF
    } else if shade == 1 {
        0xAA
    } else if shade == 2 {
        0x55
    } else {
        0x00
    }
}

/// Offset of channel `c` of pixel (x, y) in an RGBA frame.
pub open spec fn frame_index(x: int, y: int, c: int) -> int {
    4 * (SCREEN_WIDTH * y + x) + c
}

/// `frame` is the background of `bus` as RGBA pixels, row by row.
pub open spec fn is_frame_of(frame: Seq<u8>, bus: BusView) -> bool {
    &&& frame.len() == BUFFER_SIZE
    &&& forall|x: int, y: int, c: int|
        0 <= x < SCREEN_WIDTH && 0 <= y < SCREEN_HEIGHT && 0 <= c < 4
            ==> #[trigger] frame[frame_index(x, y, c)] == color_channel(bg_shade(bus, x, y), c)
}

fn color_channel_of(shade: u8, c: usize) -> (r: u8)
    ensures
        r == color_channel(shade, c as int),
{
    if c == 3 {
        0xFF
    } else if shade == 0 {
        0xFF
    } else if shade == 1 {
        0xAA
    } else if shade == 2 {
        0x55
    } else {
        0x00
    }
}

#[derive(Debug)]
pub struct PPU {}

impl PPU {
    pub fn new() -> PPU {
        PPU {  }
    }

    /// Renders the background: for each screen pixel, the scrolled tile
    /// map entry, the tile's colour index, BGP, then the system palette.
    pub fn render_bg(&self, bus: &Bus, lcd: &Lcd) -> (frame: Vec<u8>)
        requires
            bus@.wf(),
        ensures
            is_frame_of(frame@, bus@),
    {
        let enabled = lcd.is_bg_window_enabled(bus);
        let tile_map = self.get_background_tile_map(bus, lcd);
        let data_start = lcd.get_bg_window_tile_data_area_start(bus);
        let palette = lcd.get_background_palette(bus);
        let scy = bus.read_byte(0xFF42);
        let scx = bus.read_byte(0xFF43);
        let mut frame: Vec<u8> = Vec::new();
        let mut y: usize = 0;
        while y < SCREEN_HEIGHT
            invariant
                y <= SCREEN_HEIGHT,
                bus@.wf(),
                enabled == bit_of(bus@.io[0x40], 0),
                data_start == (if bit_of(bus@.io[0x40], 4) {
                    0x8000u16
                } else {
                    0x9000u16
                }),
                forall|i: int| 0 <= i < 4 ==> #[trigger] palette@[i] == shade_of(bus@.io[0x47], i as u8),
                scy == bus@.io[0x42],
                scx == bus@.io[0x43],
                tile_map@.len() == TILE_MAP_AREA_SIZE,
                forall|i: int|
                    0 <= i < TILE_MAP_AREA_SIZE ==> #[trigger] tile_map@[i] == bus@.read(
                        (bg_map_start(bus@) + i) as u16,
                    ),
                frame@.len() == frame_index(0, y as int, 0),
                forall|px: int, py: int, c: int|
                    0 <= px < SCREEN_WIDTH && 0 <= py < y && 0 <= c < 4
                        ==> #[trigger] frame@[frame_index(px, py, c)] == color_channel(
                        bg_shade(bus@, px, py),
                        c,
                    ),
            decreases SCREEN_HEIGHT - y,
        {
            let mut x: usize = 0;
            while x < SCREEN_WIDTH
                invariant
                    x <= SCREEN_WIDTH,
                    y < SCREEN_HEIGHT,
                    bus@.wf(),
                    enabled == bit_of(bus@.io[0x40], 0),
                    data_start == (if bit_of(bus@.io[0x40], 4) {
                        0x8000u16
                    } else {
                        0x9000u16
                    }),
                    forall|i: int|
                        0 <= i < 4 ==> #[trigger] palette@[i] == shade_of(bus@.io[0x47], i as u8),
                    scy == bus@.io[0x42],
                    scx == bus@.io[0x43],
                    tile_map@.len() == TILE_MAP_AREA_SIZE,
                    forall|i: int|
                        0 <= i < TILE_MAP_AREA_SIZE ==> #[trigger] tile_map@[i] == bus@.read(
                            (bg_map_start(bus@) + i) as u16,
                        ),
                    frame@.len() == frame_index(x as int, y as int, 0),
                    forall|px: int, py: int, c: int|
                        0 <= px < SCREEN_WIDTH && 0 <= py < SCREEN_HEIGHT && 0 <= c < 4 && (py < y
                            || (py == y && px < x)) ==> #[trigger] frame@[frame_index(px, py, c)]
                            == color_channel(bg_shade(bus@, px, py), c),
                decreases SCREEN_WIDTH - x,
            {
                let shade = if enabled {
                    let id = self.bg_color_id(bus, &tile_map, data_start, scx, scy, x, y);
                    palette[id as usize]
                } else {
                    0
                };
                let ghost before = frame@;
                frame.push(color_channel_of(shade, 0));
                frame.push(color_channel_of(shade, 1));
                frame.push(color_channel_of(shade, 2));
                frame.push(color_channel_of(shade, 3));
                assert forall|px: int, py: int, c: int|
                    0 <= px < SCREEN_WIDTH && 0 <= py < SCREEN_HEIGHT && 0 <= c < 4 && (py < y || (
                    py == y && px < x + 1)) implies #[trigger] frame@[frame_index(px, py, c)]
                    == color_channel(bg_shade(bus@, px, py), c) by {
                    if py == y && px == x {
                        assert(frame@[frame_index(px, py, c)] == color_channel(shade, c));
                    } else {
                        assert(frame@[frame_index(px, py, c)] == before[frame_index(px, py, c)]);
                    }
                }
                x += 1;
            }
            y += 1;
        }
        frame
    }

    /// Colour index of screen pixel (x, y) of the background.
    fn bg_color_id(
        &self,
        bus: &Bus,
        tile_map: &Vec<u8>,
        data_start: u16,
        scx: u8,
        scy: u8,
        x: usize,
        y: usize,
    ) -> (r: u8)
        requires
            bus@.wf(),
            x < SCREEN_WIDTH,
            y < SCREEN_HEIGHT,
            data_start == (if bit_of(bus@.io[0x40], 4) {
                0x8000u16
            } else {
                0x9000u16
            }),
            scy == bus@.io[0x42],
            scx == bus@.io[0x43],
            tile_map@.len() == TILE_MAP_AREA_SIZE,
            forall|i: int|
                0 <= i < TILE_MAP_AREA_SIZE ==> #[trigger] tile_map@[i] == bus@.read(
                    (bg_map_start(bus@) + i) as u16,
                ),
        ensures
            r == bg_color_id(bus@, x as int, y as int),
            r < 4,
    {
        let py = (y + scy as usize) % 256;
        let px = (x + scx as usize) % 256;
        let index = tile_map[(py / 8) * 32 + px / 8];
        let base: usize = if data_start == 0x8000 {
            0x8000 + index as usize * 16
        } else if index < 128 {
            data_start as usize + index as usize * 16
        } else {
            data_start as usize - (256 - index as usize) * 16
        };
        let row = base + 2 * (py % 8);
        let lo = bus.read_byte(row as u16);
        let hi = bus.read_byte((row + 1) as u16);
        let shift = 7 - (px % 8) as u8;
        proof {
            lemma_pixel_range(lo, hi, (px % 8) as u8);
        }
        (((hi >> shift) & 1) << 1) | ((lo >> shift) & 1)
    }

    /// The 32x32 tile indices of the BG tile map that LCDC selects.
    fn get_background_tile_map(&self, bus: &Bus, lcd: &Lcd) -> (r: Vec<u8>)
        requires
            bus@.wf(),
        ensures
            r@.len() == TILE_MAP_AREA_SIZE,
            forall|i: int|
                0 <= i < TILE_MAP_AREA_SIZE ==> #[trigger] r@[i] == bus@.read(
                    (bg_map_start(bus@) + i) as u16,
                ),
    {
        let start = lcd.get_bg_tile_map_area_start(bus);
        let mut tile_map: Vec<u8> = Vec::new();
        let mut i: usize = 0;
        while i < TILE_MAP_AREA_SIZE
            invariant
                i <= TILE_MAP_AREA_SIZE,
                bus@.wf(),
                start == bg_map_start(bus@),
                tile_map@.len() == i,
                forall|j: int|
                    0 <= j < i ==> #[trigger] tile_map@[j] == bus@.read(
                        (bg_map_start(bus@) + j) as u16,
                    ),
            decreases TILE_MAP_AREA_SIZE - i,
        {
            tile_map.push(bus.read_byte(start + i as u16));
            i += 1;
        }
        tile_map
    }
}

} // verus!
