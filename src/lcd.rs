//! The LCD state machine: LY, STAT modes, LYC coincidence, and the VBlank
//! and STAT interrupts.
use vstd::prelude::*;
use crate::bus::{Bus, BusView, STAT_ADDR, LY_ADDR};
use crate::interrupts::{InterruptType, raise, request_interrupt};
use crate::ppu::{PPU, is_frame_of};
use crate::utils::{bit_of, test_bit};

verus! {

pub const LCD_CONTROL_REGISTER: u16 = 0xFF40;
pub const LYC_REGISTER: u16 = 0xFF45;
pub const BG_PALETTE: u16 = 0xFF47;

pub const SCREEN_WIDTH: usize = 160;
pub const SCREEN_HEIGHT: usize = 144;
/// Bytes of an RGBA frame.
pub const BUFFER_SIZE: usize = 4 * 160 * 144;

/// T-cycles per scanline.
pub const SCAN_LINE_TIME: u16 = 456;
pub const VISIBLE_SCAN_LINES: u8 = 144;

/// LY, the scanline counter and the number of VBlank entries after `t`
/// T-cycles: each time the counter reaches 0, LY advances modulo 154 and
/// the counter gains 456; entering line 144 is a VBlank.
pub open spec fn lines_after(ly: u8, counter: int, t: int) -> (u8, int, nat)
    decreases t,
{
    if counter <= 0 || t < counter {
        (ly, counter - t, 0)
    } else {
        let next = ((ly + 1) % 154) as u8;
        let (l, c, v) = lines_after(next, 456, t - counter);
        (l, c, v + if next == 144 {
            1nat
        } else {
            0nat
        })
    }
}

/// The STAT mode for a line and the counter: 1 (VBlank) from line 144,
/// else 2 (OAM scan) for the first 80 T-cycles, 3 (transfer) for the next
/// 172, then 0 (HBlank).
pub open spec fn mode_of(ly: u8, counter: int) -> u8 {
    if ly >= 144 {
        1
    } else if counter > 376 {
        2
    } else if counter > 204 {
        3
    } else {
        0
    }
}

/// STAT with bits 0-1 the mode, bit 2 the LYC=LY match, bits 3-6 kept and bit 7 zero.
pub open spec fn stat_value(stat: u8, coincidence: bool, mode: u8) -> u8 {
    (stat & 0x78u8) | (if coincidence {
        4u8
    } else {
        0u8
    }) | mode
}

/// The STAT interrupt line: an enabled mode source or an enabled LYC match.
pub open spec fn stat_line(stat: u8) -> bool {
    let mode = stat & 3u8;
    (mode == 0 && bit_of(stat, 3)) || (mode == 1 && bit_of(stat, 4)) || (mode == 2 && bit_of(
        stat,
        5,
    )) || (bit_of(stat, 2) && bit_of(stat, 6))
}

pub struct LcdView {
    /// T-cycles left in the current scanline, 1..=456.
    pub counter: int,
    /// The STAT interrupt line after the last update.
    pub stat_line: bool,
}

/// What the LCD does over `cycles` M-cycles (four T-cycles each), and
/// whether it entered VBlank. With LCDC bit 7 clear the PPU is held at
/// LY = 0, mode 1 and a full scanline counter.
pub open spec fn lcd_update(l: LcdView, bus: BusView, cycles: int) -> (LcdView, BusView, bool) {
    if !bit_of(bus.io[0x40], 7) {
        (
            LcdView { counter: 456, stat_line: false },
            bus.privileged_write(LY_ADDR, 0).privileged_write(
                STAT_ADDR,
                (bus.io[0x41] & 0x7Cu8) | 1u8,
            ),
            false,
        )
    } else {
        let (ly, counter, vblanks) = lines_after(bus.io[0x44], l.counter, 4 * cycles);
        let b1 = bus.privileged_write(LY_ADDR, ly);
        let b2 = if vblanks > 0 {
            raise(b1, InterruptType::VBlank)
        } else {
            b1
        };
        let stat = stat_value(b2.io[0x41], ly == b2.io[0x45], mode_of(ly, counter));
        let b3 = b2.privileged_write(STAT_ADDR, stat);
        let line = stat_line(stat);
        let b4 = if line && !l.stat_line {
            raise(b3, InterruptType::LCDStat)
        } else {
            b3
        };
        (LcdView { counter, stat_line: line }, b4, vblanks > 0)
    }
}

#[derive(Debug)]
pub struct Lcd {
    scanline_counter: u16,
    stat_line: bool,
    ppu: PPU,
}

impl View for Lcd {
    type V = LcdView;

    closed spec fn view(&self) -> LcdView {
        LcdView { counter: self.scanline_counter as int, stat_line: self.stat_line }
    }
}

impl Lcd {
    pub open spec fn wf(&self) -> bool {
        1 <= self@.counter <= 456
    }

    pub fn new() -> (l: Lcd)
        ensures
            l.wf(),
            l@ == (LcdView { counter: 456, stat_line: false }),
    {
        Lcd { scanline_counter: SCAN_LINE_TIME, stat_line: false, ppu: PPU::new() }
    }

    /// Advances the LCD by `cycles` M-cycles; returns whether VBlank was
    /// entered, that is whether a frame is complete.
    pub fn update_graphics(&mut self, bus: &mut Bus, cycles: u64) -> (frame_ready: bool)
        requires
            old(self).wf(),
            old(bus)@.wf(),
        ensures
            (final(self)@, final(bus)@, frame_ready) == lcd_update(old(self)@, old(bus)@, cycles as int),
            final(self).wf(),
            final(bus)@.wf(),
    {
        if !self.is_lcd_enabled(bus) {
            self.scanline_counter = SCAN_LINE_TIME;
            self.stat_line = false;
            bus.privileged_io_write(LY_ADDR, 0);
            let status = bus.read_byte(STAT_ADDR);
            bus.privileged_io_write(STAT_ADDR, (status & 0x7C) | 1);
            return false;
        }
        let ghost ly0 = bus@.io[0x44];
        let ghost c0 = self@.counter;
        let ghost t0 = 4 * cycles as int;
        let mut ly = bus.read_byte(LY_ADDR);
        let mut counter: u128 = self.scanline_counter as u128;
        let mut remaining: u128 = cycles as u128 * 4;
        let mut entered = false;
        let ghost mut seen: nat = 0;
        while remaining >= counter
            invariant
                1 <= counter <= 456,
                lines_after(ly0, c0, t0).0 == lines_after(ly, counter as int, remaining as int).0,
                lines_after(ly0, c0, t0).1 == lines_after(ly, counter as int, remaining as int).1,
                lines_after(ly0, c0, t0).2 == lines_after(ly, counter as int, remaining as int).2
                    + seen,
                entered == (seen > 0),
            decreases remaining,
        {
            remaining = remaining - counter;
            ly = ((ly as u16 + 1) % 154) as u8;
            counter = 456;
            if ly == VISIBLE_SCAN_LINES {
                entered = true;
                proof {
                    seen = seen + 1;
                }
            }
        }
        counter = counter - remaining;
        bus.privileged_io_write(LY_ADDR, ly);
        if entered {
            request_interrupt(bus, InterruptType::VBlank);
        }
        self.scanline_counter = counter as u16;
        self.update_ldc_status(bus, ly, counter as u16);
        entered
    }

    /// The background of the current VRAM and registers as an RGBA frame.
    pub fn render_frame(&self, bus: &Bus) -> (frame: Vec<u8>)
        requires
            bus@.wf(),
        ensures
            is_frame_of(frame@, bus@),
    {
        self.ppu.render_bg(bus, self)
    }

    /// Sets STAT's mode and LYC=LY bits and raises the STAT interrupt on a
    /// rising edge of its line.
    fn update_ldc_status(&mut self, bus: &mut Bus, ly: u8, counter: u16)
        requires
            old(bus)@.wf(),
            1 <= counter <= 456,
            old(self).scanline_counter == counter,
        ensures
            ({
                let stat = stat_value(
                    old(bus)@.io[0x41],
                    ly == old(bus)@.io[0x45],
                    mode_of(ly, counter as int),
                );
                let b = old(bus)@.privileged_write(STAT_ADDR, stat);
                &&& final(self)@ == (LcdView { counter: counter as int, stat_line: stat_line(stat) })
                &&& final(bus)@ == if stat_line(stat) && !old(self).stat_line {
                    raise(b, InterruptType::LCDStat)
                } else {
                    b
                }
            }),
            final(self).wf(),
            final(bus)@.wf(),
    {
        let mode = self.get_lcd_mode(ly, counter);
        let lyc = bus.read_byte(LYC_REGISTER);
        let status = bus.read_byte(STAT_ADDR);
        let coincidence: u8 = if ly == lyc {
            4
        } else {
            0
        };
        let stat = (status & 0x78) | coincidence | mode;
        bus.privileged_io_write(STAT_ADDR, stat);
        let line = self.is_interrupt_requested(stat);
        if line && !self.stat_line {
            request_interrupt(bus, InterruptType::LCDStat);
        }
        self.stat_line = line;
    }

    /// The mode for line `ly` with `counter` T-cycles left in it.
    fn get_lcd_mode(&self, ly: u8, counter: u16) -> (r: u8)
        ensures
            r == mode_of(ly, counter as int),
    {
        if ly >= VISIBLE_SCAN_LINES {
            1
        } else if counter > 376 {
            2
        } else if counter > 204 {
            3
        } else {
            0
        }
    }

    /// Whether the STAT interrupt line is high for the STAT byte `stat`.
    fn is_interrupt_requested(&self, stat: u8) -> (r: bool)
        ensures
            r == stat_line(stat),
    {
        let mode = stat & 3;
        (mode == 0 && test_bit(stat, 3)) || (mode == 1 && test_bit(stat, 4)) || (mode == 2
            && test_bit(stat, 5)) || (test_bit(stat, 2) && test_bit(stat, 6))
    }

    fn read_from_lcd_control_register(&self, bus: &Bus) -> (r: u8)
        requires
            bus@.wf(),
        ensures
            r == bus@.io[0x40],
    {
        bus.read_byte(LCD_CONTROL_REGISTER)
    }

    fn is_lcd_enabled(&self, bus: &Bus) -> (r: bool)
        requires
            bus@.wf(),
        ensures
            r == bit_of(bus@.io[0x40], 7),
    {
        let byte = self.read_from_lcd_control_register(bus);
        test_bit(byte, 7)
    }

    /// Base of the BG/window tile data: 0x8000 when LCDC bit 4 is set
    /// (tile i at 0x8000 + 16 * i), else 0x9000 (tile i at 0x9000 + 16 * i
    /// with i read as a signed byte).
    pub fn get_bg_window_tile_data_area_start(&self, bus: &Bus) -> (r: u16)
        requires
            bus@.wf(),
        ensures
            r == if bit_of(bus@.io[0x40], 4) {
                0x8000u16
            } else {
                0x9000u16
            },
    {
        let byte = self.read_from_lcd_control_register(bus);
        if test_bit(byte, 4) {
            0x8000
        } else {
            0x9000
        }
    }

    /// Start of the BG tile map: 0x9C00 when LCDC bit 3 is set, else 0x9800.
    pub fn get_bg_tile_map_area_start(&self, bus: &Bus) -> (r: u16)
        requires
            bus@.wf(),
        ensures
            r == if bit_of(bus@.io[0x40], 3) {
                0x9C00u16
            } else {
                0x9800u16
            },
    {
        let byte = self.read_from_lcd_control_register(bus);
        if test_bit(byte, 3) {
            0x9C00
        } else {
            0x9800
        }
    }

    /// LCDC bit 0: background and window enabled.
    pub fn is_bg_window_enabled(&self, bus: &Bus) -> (r: bool)
        requires
            bus@.wf(),
        ensures
            r == bit_of(bus@.io[0x40], 0),
    {
        let byte = self.read_from_lcd_control_register(bus);
        test_bit(byte, 0)
    }

    /// The four shades that BGP assigns to colour indices 0..=3.
    pub fn get_background_palette(&self, bus: &Bus) -> (r: [u8; 4])
        requires
            bus@.wf(),
        ensures
            forall|i: int| 0 <= i < 4 ==> #[trigger] r@[i] == shade_of(bus@.io[0x47], i as u8),
    {
        let byte = bus.read_byte(BG_PALETTE);
        self.decode_palette(byte)
    }

    fn decode_palette(&self, byte: u8) -> (r: [u8; 4])
        ensures
            forall|i: int| 0 <= i < 4 ==> #[trigger] r@[i] == shade_of(byte, i as u8),
    {
        let r = [byte & 0x03, (byte >> 2) & 0x03, (byte >> 4) & 0x03, (byte >> 6) & 0x03];
        assert(byte & 0x03u8 == (byte >> 0u8) & 3u8) by (bit_vector);
        assert(r@[0] == shade_of(byte, 0));
        assert(r@[1] == shade_of(byte, 1));
        assert(r@[2] == shade_of(byte, 2));
        assert(r@[3] == shade_of(byte, 3));
        r
    }
}

/// The shade (system palette index) that palette `bgp` gives colour index `id`.
pub open spec fn shade_of(bgp: u8, id: u8) -> u8 {
    (bgp >> (2 * id) as u8) & 3u8
}

} // verus!

verus! {

/// VBlank entries over `k` line advances from line `ly`.
pub open spec fn vblank_count(ly: u8, k: nat) -> nat
    decreases k,
{
    if k == 0 {
        0
    } else {
        let next = ((ly + 1) % 154) as u8;
        (if next == 144 {
            1nat
        } else {
            0nat
        }) + vblank_count(next, (k - 1) as nat)
    }
}

/// Splitting a span of T-cycles in two: running the second part from where
/// the first left off gives the same line, counter and VBlank count.
pub proof fn lemma_lines_additive(ly: u8, counter: int, t1: int, t2: int)
    requires
        counter >= 1,
        t1 >= 0,
        t2 >= 0,
    ensures
        ({
            let (l1, c1, v1) = lines_after(ly, counter, t1);
            let (l2, c2, v2) = lines_after(l1, c1, t2);
            lines_after(ly, counter, t1 + t2) == (l2, c2, v1 + v2)
        }),
    decreases t1,
{
    if t1 >= counter {
        let next = ((ly + 1) % 154) as u8;
        lemma_lines_additive(next, 456, t1 - counter, t2);
        assert(t1 + t2 - counter == (t1 - counter) + t2);
    }
}

/// From a full counter, 456 * k + r T-cycles (r < 456) advance LY by k
/// lines modulo 154.
proof fn lemma_lines(ly: u8, k: nat, r: int)
    requires
        0 <= r < 456,
        ly < 154,
    ensures
        lines_after(ly, 456, 456 * k + r) == (((ly + k) % 154) as u8, 456 - r, vblank_count(ly, k)),
    decreases k,
{
    if k > 0 {
        let next = ((ly + 1) % 154) as u8;
        lemma_lines(next, (k - 1) as nat, r);
        assert(456 * k + r - 456 == 456 * (k - 1) + r);
        vstd::arithmetic::div_mod::lemma_add_mod_noop(ly + 1, k - 1, 154);
        vstd::arithmetic::div_mod::lemma_mod_twice(k - 1, 154);
        assert((k - 1) % 154 % 154 == (k - 1) % 154);
        vstd::arithmetic::div_mod::lemma_mod_bound(k - 1, 154);
    }
}

proof fn lemma_no_vblank(ly: u8, k: nat)
    requires
        (ly + k < 144) || (144 <= ly && ly + k <= 154),
    ensures
        vblank_count(ly, k) == 0,
    decreases k,
{
    if k > 0 {
        let next = ((ly + 1) % 154) as u8;
        lemma_no_vblank(next, (k - 1) as nat);
    }
}

proof fn lemma_vblank_split(ly: u8, a: nat, b: nat)
    requires
        ly < 154,
    ensures
        vblank_count(ly, a + b) == vblank_count(ly, a) + vblank_count(((ly + a) % 154) as u8, b),
    decreases a,
{
    if a > 0 {
        let next = ((ly + 1) % 154) as u8;
        lemma_vblank_split(next, (a - 1) as nat, b);
        assert((a + b - 1) as nat == (a - 1) as nat + b);
        vstd::arithmetic::div_mod::lemma_add_mod_noop(ly + 1, a - 1, 154);
        vstd::arithmetic::div_mod::lemma_mod_twice(a - 1, 154);
        vstd::arithmetic::div_mod::lemma_mod_bound(a - 1, 154);
    }
}

/// Starting at LY = 0 with a full scanline counter, LY holds each value
/// 0..=153 in turn for 456 T-cycles each. Over any 70224 T-cycles (one
/// frame) that start during line 0, LY comes back to 0 at the same point of
/// the line and VBlank is entered exactly once.
pub proof fn lemma_frame_cadence(t: int, counter: int)
    requires
        0 <= t < 70224,
        1 <= counter <= 456,
    ensures
        lines_after(0, 456, t).0 == t / 456,
        lines_after(0, 456, t).1 == 456 - t % 456,
        lines_after(0, counter, 70224) == (0u8, counter, 1nat),
{
    let k = t / 456;
    let r = t % 456;
    vstd::arithmetic::div_mod::lemma_fundamental_div_mod(t, 456);
    assert(0 <= k < 154);
    lemma_lines(0, k as nat, r);
    // The rest of line 0, then 153 full lines and the start of line 0 again.
    lemma_lines_additive(0, counter, counter, 70224 - counter);
    assert(lines_after(1, 456, 0) == (1u8, 456int, 0nat));
    assert(lines_after(0, counter, counter) == (1u8, 456int, 0nat));
    assert(70224 - counter == 456 * 153 + (456 - counter));
    lemma_lines(1, 153, 456 - counter);
    lemma_vblank_split(1, 142, 11);
    lemma_no_vblank(1, 142);
    lemma_no_vblank(144, 10);
    assert(vblank_count(143, 11) == 1 + vblank_count(144, 10));
}

/// Two consecutive updates with the LCD on leave LY and the scanline
/// counter where one update over their summed cycles would, and the VBlank
/// entries of the two add up to those of the whole span. By induction this
/// carries `lemma_frame_cadence` over any sequence of steps.
pub proof fn lemma_lcd_updates_compose(l: LcdView, bus: BusView, c1: nat, c2: nat)
    requires
        bus.wf(),
        1 <= l.counter <= 456,
        bit_of(bus.io[0x40], 7),
    ensures
        ({
            let (l1, b1, r1) = lcd_update(l, bus, c1 as int);
            let (l2, b2, r2) = lcd_update(l1, b1, c2 as int);
            let first = lines_after(bus.io[0x44], l.counter, 4 * c1 as int);
            let second = lines_after(b1.io[0x44], l1.counter, 4 * c2 as int);
            let whole = lines_after(bus.io[0x44], l.counter, 4 * (c1 + c2) as int);
            &&& b1.io[0x44] == first.0 && l1.counter == first.1
            &&& b2.io[0x44] == whole.0 && l2.counter == whole.1
            &&& whole.2 == first.2 + second.2
            &&& r1 == (first.2 > 0) && r2 == (second.2 > 0)
        }),
{
    let (l1, b1, r1) = lcd_update(l, bus, c1 as int);
    assert(b1.io[0x40] == bus.io[0x40]);
    lemma_lines_additive(bus.io[0x44], l.counter, 4 * c1 as int, 4 * c2 as int);
    assert(4 * (c1 + c2) == 4 * c1 + 4 * c2);
}

} // verus!
