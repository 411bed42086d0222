//! The memory bus: routes every 16-bit address to the mapper, VRAM, WRAM,
//! OAM, I/O registers, HRAM or the interrupt-enable byte.
use vstd::prelude::*;
use crate::cartridge::Cartridge;
use crate::mapper::{Mbc1, Mbc1View};
use crate::utils::wrap16;

verus! {

pub const DIV_ADDR: u16 = 0xFF04;
pub const STAT_ADDR: u16 = 0xFF41;
pub const LY_ADDR: u16 = 0xFF44;

/// The memory that the bus routes to.
pub struct BusView {
    pub mapper: Mbc1View,
    pub vram: Seq<u8>,
    pub wram: Seq<u8>,
    pub oam: Seq<u8>,
    pub io: Seq<u8>,
    pub hram: Seq<u8>,
    pub ie: u8,
}

impl BusView {
    pub open spec fn wf(&self) -> bool {
        &&& self.mapper.wf()
        &&& self.vram.len() == 0x2000
        &&& self.wram.len() == 0x2000
        &&& self.oam.len() == 0xA0
        &&& self.io.len() == 0x80
        &&& self.hram.len() == 0x7F
    }

    pub open spec fn read(&self, addr: u16) -> u8 {
        if addr < 0x8000 {
            self.mapper.read(addr)
        } else if addr < 0xA000 {
            self.vram[addr - 0x8000]
        } else if addr < 0xC000 {
            self.mapper.read(addr)
        } else if addr < 0xE000 {
            self.wram[addr - 0xC000]
        } else if addr < 0xFE00 {
            // Echo RAM mirrors 0xC000-0xDDFF.
            self.wram[addr - 0xE000]
        } else if addr < 0xFEA0 {
            self.oam[addr - 0xFE00]
        } else if addr < 0xFF00 {
            0xFF
        } else if addr < 0xFF80 {
            self.io[addr - 0xFF00]
        } else if addr < 0xFFFF {
            self.hram[addr - 0xFF80]
        } else {
            self.ie
        }
    }

    /// A CPU write to an I/O register: DIV resets, LY is read-only, and STAT
    /// takes only bits 3-6.
    pub open spec fn io_write(self, addr: u16, v: u8) -> BusView {
        if addr == DIV_ADDR {
            BusView { io: self.io.update(0x04, 0), ..self }
        } else if addr == LY_ADDR {
            self
        } else if addr == STAT_ADDR {
            BusView { io: self.io.update(0x41, (self.io[0x41] & 0x07u8) | (v & 0x78u8)), ..self }
        } else {
            BusView { io: self.io.update(addr - 0xFF00, v), ..self }
        }
    }

    pub open spec fn write(self, addr: u16, v: u8) -> BusView {
        if addr < 0x8000 {
            BusView { mapper: self.mapper.write(addr, v), ..self }
        } else if addr < 0xA000 {
            BusView { vram: self.vram.update(addr - 0x8000, v), ..self }
        } else if addr < 0xC000 {
            BusView { mapper: self.mapper.write(addr, v), ..self }
        } else if addr < 0xE000 {
            BusView { wram: self.wram.update(addr - 0xC000, v), ..self }
        } else if addr < 0xFE00 {
            BusView { wram: self.wram.update(addr - 0xE000, v), ..self }
        } else if addr < 0xFEA0 {
            BusView { oam: self.oam.update(addr - 0xFE00, v), ..self }
        } else if addr < 0xFF00 {
            self
        } else if addr < 0xFF80 {
            self.io_write(addr, v)
        } else if addr < 0xFFFF {
            BusView { hram: self.hram.update(addr - 0xFF80, v), ..self }
        } else {
            BusView { ie: v, ..self }
        }
    }

    /// An internal write to an I/O register by the PPU or the timer, past
    /// the masks that CPU writes go through.
    pub open spec fn privileged_write(self, addr: u16, v: u8) -> BusView {
        BusView { io: self.io.update(addr - 0xFF00, v), ..self }
    }

    /// Little-endian 16-bit read.
    pub open spec fn read_word(&self, addr: u16) -> u16 {
        (self.read(wrap16(addr + 1)) as int * 256 + self.read(addr) as int) as u16
    }

    /// Little-endian 16-bit write: low byte at `addr`, then high byte at `addr + 1`.
    pub open spec fn write_word(self, addr: u16, v: u16) -> BusView {
        self.write(addr, (v % 256) as u8).write(wrap16(addr + 1), (v / 256) as u8)
    }
}

/// Reads of the unusable range 0xFEA0-0xFEFF return 0xFF, and writes to
/// it change nothing.
pub proof fn lemma_unusable_range(b: BusView, addr: u16, v: u8)
    requires
        0xFEA0 <= addr <= 0xFEFF,
    ensures
        b.read(addr) == 0xFF,
        b.write(addr, v) == b,
{
}

/// After any CPU write to DIV (0xFF04), DIV reads 0.
pub proof fn lemma_div_write_resets(b: BusView, v: u8)
    requires
        b.wf(),
    ensures
        b.write(DIV_ADDR, v).read(DIV_ADDR) == 0,
{
}

/// The stack spans two bytes below `sp` that are plain RAM: work RAM or high RAM.
pub open spec fn stack_in_ram(sp: u16) -> bool {
    (0xC002 <= sp <= 0xE000) || (0xFF82 <= sp <= 0xFFFF)
}

/// The memory bus.
#[derive(Debug)]
pub struct Bus {
    mapper: Mbc1,
    vram: Vec<u8>,
    wram: Vec<u8>,
    oam: Vec<u8>,
    io_regs: Vec<u8>,
    hram: Vec<u8>,
    ie_reg: u8,
}

impl View for Bus {
    type V = BusView;

    closed spec fn view(&self) -> BusView {
        BusView {
            mapper: self.mapper@,
            vram: self.vram@,
            wram: self.wram@,
            oam: self.oam@,
            io: self.io_regs@,
            hram: self.hram@,
            ie: self.ie_reg,
        }
    }
}

/// A zero-filled buffer.
fn zeros(n: usize) -> (r: Vec<u8>)
    ensures
        r@ == Seq::new(n as nat, |i: int| 0u8),
{
    let r: Vec<u8> = vec![0u8; n];
    assert(r@ =~= Seq::new(n as nat, |i: int| 0u8));
    r
}

impl Bus {
    /// A bus over the cartridge, with all RAM and I/O registers zeroed.
    pub fn new(cartridge: Cartridge) -> (b: Bus)
        ensures
            b@.wf(),
            b@.mapper.rom == cartridge.rom_data@,
            !b@.mapper.ram_enabled,
            b@.vram == Seq::new(0x2000, |i: int| 0u8),
            b@.wram == Seq::new(0x2000, |i: int| 0u8),
            b@.oam == Seq::new(0xA0, |i: int| 0u8),
            b@.io == Seq::new(0x80, |i: int| 0u8),
            b@.hram == Seq::new(0x7F, |i: int| 0u8),
            b@.ie == 0,
    {
        Bus {
            mapper: Mbc1::new(cartridge),
            vram: zeros(0x2000),
            wram: zeros(0x2000),
            oam: zeros(0xA0),
            io_regs: zeros(0x80),
            hram: zeros(0x7F),
            ie_reg: 0,
        }
    }

    pub fn read_byte(&self, addr: u16) -> (r: u8)
        requires
            self@.wf(),
        ensures
            r == self@.read(addr),
    {
        let index = addr as usize;
        if addr < 0x8000 {
            self.mapper.read(addr)
        } else if addr < 0xA000 {
            self.vram[index - 0x8000]
        } else if addr < 0xC000 {
            self.mapper.read(addr)
        } else if addr < 0xE000 {
            self.wram[index - 0xC000]
        } else if addr < 0xFE00 {
            self.wram[index - 0xE000]
        } else if addr < 0xFEA0 {
            self.oam[index - 0xFE00]
        } else if addr < 0xFF00 {
            // Not usable.
            0xFF
        } else if addr < 0xFF80 {
            self.io_regs[index - 0xFF00]
        } else if addr < 0xFFFF {
            self.hram[index - 0xFF80]
        } else {
            self.ie_reg
        }
    }

    /// Little-endian read of two consecutive bytes.
    pub fn read_word(&self, addr: u16) -> (r: u16)
        requires
            self@.wf(),
        ensures
            r == self@.read_word(addr),
    {
        let low = self.read_byte(addr) as u16;
        let high = self.read_byte(((addr as u32 + 1) % 65536) as u16) as u16;
        high * 256 + low
    }

    pub fn write_byte(&mut self, addr: u16, value: u8)
        requires
            old(self)@.wf(),
        ensures
            final(self)@ == old(self)@.write(addr, value),
            final(self)@.wf(),
    {
        let index = addr as usize;
        if addr < 0x8000 {
            self.mapper.write(addr, value);
        } else if addr < 0xA000 {
            self.vram.set(index - 0x8000, value);
        } else if addr < 0xC000 {
            self.mapper.write(addr, value);
        } else if addr < 0xE000 {
            self.wram.set(index - 0xC000, value);
        } else if addr < 0xFE00 {
            self.wram.set(index - 0xE000, value);
        } else if addr < 0xFEA0 {
            self.oam.set(index - 0xFE00, value);
        } else if addr < 0xFF00 {
            // Not usable: the write is dropped.
        } else if addr < 0xFF80 {
            if addr == DIV_ADDR {
                self.io_regs.set(0x04, 0);
            } else if addr == LY_ADDR {
                // LY is read-only for the CPU.
            } else if addr == STAT_ADDR {
                let stat = (self.io_regs[0x41] & 0x07) | (value & 0x78);
                self.io_regs.set(0x41, stat);
            } else {
                self.io_regs.set(index - 0xFF00, value);
            }
        } else if addr < 0xFFFF {
            self.hram.set(index - 0xFF80, value);
        } else {
            self.ie_reg = value;
        }
    }

    /// Little-endian write of two consecutive bytes, low byte first.
    pub fn write_word(&mut self, addr: u16, value: u16)
        requires
            old(self)@.wf(),
        ensures
            final(self)@ == old(self)@.write_word(addr, value),
            final(self)@.wf(),
    {
        self.write_byte(addr, (value % 256) as u8);
        self.write_byte(((addr as u32 + 1) % 65536) as u16, (value / 256) as u8);
    }

    /// Writes an I/O register directly, as the PPU and the timer do.
    pub fn privileged_io_write(&mut self, addr: u16, value: u8)
        requires
            old(self)@.wf(),
            0xFF00 <= addr < 0xFF80,
        ensures
            final(self)@ == old(self)@.privileged_write(addr, value),
            final(self)@.wf(),
    {
        self.io_regs.set(addr as usize - 0xFF00, value);
    }
}

} // verus!
