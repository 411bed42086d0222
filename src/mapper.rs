//! Cartridge mappers: the MBC1 controller.
use vstd::prelude::*;
use crate::cartridge::Cartridge;

verus! {

/// Size of the external RAM that the MBC1 can address: four 8 KiB banks.
pub const ERAM_SIZE: usize = 0x8000;

/// What a mapper presents to the bus: reads and control writes in
/// 0x0000-0x7FFF and 0xA000-0xBFFF.
pub trait Mapper: Sized {
    spec fn valid(&self) -> bool;

    /// The ROM image the mapper serves.
    spec fn rom_spec(&self) -> Seq<u8>;

    /// What a read of `addr` returns.
    spec fn read_spec(&self, addr: u16) -> u8;

    /// `next` is the mapper after writing `value` to `addr`.
    spec fn write_spec(&self, addr: u16, value: u8, next: &Self) -> bool;

    /// A mapper over the cartridge's ROM, with external RAM disabled.
    fn new(cartridge: Cartridge) -> (m: Self)
        ensures
            m.valid(),
            m.rom_spec() == cartridge.rom_data@,
            forall|a: u16| 0xA000 <= a < 0xC000 ==> #[trigger] m.read_spec(a) == 0xFF,
    ;

    fn read(&self, addr: u16) -> (r: u8)
        requires
            self.valid(),
        ensures
            r == self.read_spec(addr),
    ;

    fn write(&mut self, addr: u16, value: u8)
        requires
            old(self).valid(),
        ensures
            final(self).valid(),
            old(self).write_spec(addr, value, &*final(self)),
    ;
}

/// The state of an MBC1 controller.
pub struct Mbc1View {
    pub rom: Seq<u8>,
    pub ram: Seq<u8>,
    pub ram_enabled: bool,
    /// Low five bits of the ROM bank, never 0.
    pub rom_bank: u8,
    /// Two bits: upper ROM bank bits, or RAM bank in RAM banking mode.
    pub bank_high: u8,
    pub ram_banking: bool,
}

impl Mbc1View {
    pub open spec fn wf(&self) -> bool {
        &&& self.ram.len() == ERAM_SIZE
        &&& 1 <= self.rom_bank < 32
        &&& self.bank_high < 4
    }

    /// The ROM bank selected for 0x4000-0x7FFF, before wrapping to the ROM size.
    pub open spec fn rom_bank_number(&self) -> int {
        self.bank_high * 32 + self.rom_bank
    }

    pub open spec fn ram_bank_number(&self) -> int {
        if self.ram_banking {
            self.bank_high as int
        } else {
            0
        }
    }

    pub open spec fn rom_banks(&self) -> int {
        self.rom.len() as int / 0x4000
    }

    pub open spec fn read(&self, addr: u16) -> u8 {
        if addr < 0x4000 {
            if addr < self.rom.len() {
                self.rom[addr as int]
            } else {
                0xFF
            }
        } else if addr < 0x8000 {
            if self.rom_banks() == 0 {
                0xFF
            } else {
                self.rom[(self.rom_bank_number() % self.rom_banks()) * 0x4000 + (addr - 0x4000)]
            }
        } else if 0xA000 <= addr < 0xC000 {
            if self.ram_enabled {
                self.ram[self.ram_bank_number() * 0x2000 + (addr - 0xA000)]
            } else {
                0xFF
            }
        } else {
            0xFF
        }
    }

    pub open spec fn write(self, addr: u16, v: u8) -> Mbc1View {
        if addr < 0x2000 {
            Mbc1View { ram_enabled: v % 16 == 0x0A, ..self }
        } else if addr < 0x4000 {
            Mbc1View { rom_bank: if v % 32 == 0 { 1 } else { (v % 32) as u8 }, ..self }
        } else if addr < 0x6000 {
            Mbc1View { bank_high: (v % 4) as u8, ..self }
        } else if addr < 0x8000 {
            Mbc1View { ram_banking: v % 2 == 1, ..self }
        } else if 0xA000 <= addr < 0xC000 && self.ram_enabled {
            Mbc1View {
                ram: self.ram.update(self.ram_bank_number() * 0x2000 + (addr - 0xA000), v),
                ..self
            }
        } else {
            self
        }
    }
}

/// An MBC1 cartridge controller: ROM banking, external RAM and its enable latch.
#[derive(Debug)]
pub struct Mbc1 {
    rom_data: Vec<u8>,
    ram_data: Vec<u8>,
    is_ram_enabled: bool,
    rom_bank: u8,
    bank_high: u8,
    ram_banking: bool,
}

impl View for Mbc1 {
    type V = Mbc1View;

    closed spec fn view(&self) -> Mbc1View {
        Mbc1View {
            rom: self.rom_data@,
            ram: self.ram_data@,
            ram_enabled: self.is_ram_enabled,
            rom_bank: self.rom_bank,
            bank_high: self.bank_high,
            ram_banking: self.ram_banking,
        }
    }
}

impl Mbc1 {
    pub fn new(cartridge: Cartridge) -> (m: Mbc1)
        ensures
            m@.wf(),
            m@.rom == cartridge.rom_data@,
            m@.ram == Seq::new(ERAM_SIZE as nat, |i: int| 0u8),
            !m@.ram_enabled,
            m@.rom_bank == 1,
            m@.bank_high == 0,
            !m@.ram_banking,
    {
        let ram_data: Vec<u8> = vec![0u8; ERAM_SIZE];
        let m = Mbc1 {
            rom_data: cartridge.rom_data,
            ram_data,
            is_ram_enabled: false,
            rom_bank: 1,
            bank_high: 0,
            ram_banking: false,
        };
        assert(m@.ram =~= Seq::new(ERAM_SIZE as nat, |i: int| 0u8));
        m
    }

    pub fn read(&self, addr: u16) -> (r: u8)
        requires
            self@.wf(),
        ensures
            r == self@.read(addr),
    {
        let len = self.rom_data.len();
        if addr < 0x4000 {
            if (addr as usize) < len {
                self.rom_data[addr as usize]
            } else {
                0xFF
            }
        } else if addr < 0x8000 {
            let banks: usize = len / 0x4000;
            if banks == 0 {
                0xFF
            } else {
                let bank: usize = (self.bank_high as usize * 32 + self.rom_bank as usize) % banks;
                proof {
                    assert(bank < banks);
                    assert(bank * 0x4000 + 0x4000 <= banks * 0x4000) by (nonlinear_arith)
                        requires
                            bank < banks,
                    ;
                    assert(banks * 0x4000 <= len);
                }
                self.rom_data[bank * 0x4000 + (addr as usize - 0x4000)]
            }
        } else if 0xA000 <= addr && addr < 0xC000 {
            if self.is_ram_enabled {
                let bank: usize = if self.ram_banking {
                    self.bank_high as usize
                } else {
                    0
                };
                self.ram_data[bank * 0x2000 + (addr as usize - 0xA000)]
            } else {
                0xFF
            }
        } else {
            0xFF
        }
    }

    pub fn write(&mut self, addr: u16, value: u8)
        requires
            old(self)@.wf(),
        ensures
            final(self)@ == old(self)@.write(addr, value),
            final(self)@.wf(),
    {
        if addr < 0x2000 {
            // RAM is enabled exactly when the low nibble is 0xA.
            self.is_ram_enabled = value % 16 == 0x0A;
        } else if addr < 0x4000 {
            let low = value % 32;
            self.rom_bank = if low == 0 {
                1
            } else {
                low
            };
        } else if addr < 0x6000 {
            self.bank_high = value % 4;
        } else if addr < 0x8000 {
            self.ram_banking = value % 2 == 1;
        } else if 0xA000 <= addr && addr < 0xC000 && self.is_ram_enabled {
            let bank: usize = if self.ram_banking {
                self.bank_high as usize
            } else {
                0
            };
            self.ram_data.set(bank * 0x2000 + (addr as usize - 0xA000), value);
        }
    }
}

impl Mapper for Mbc1 {
    open spec fn valid(&self) -> bool {
        self@.wf()
    }

    open spec fn rom_spec(&self) -> Seq<u8> {
        self@.rom
    }

    open spec fn read_spec(&self, addr: u16) -> u8 {
        self@.read(addr)
    }

    open spec fn write_spec(&self, addr: u16, value: u8, next: &Self) -> bool {
        next@ == self@.write(addr, value)
    }

    fn new(cartridge: Cartridge) -> Self {
        Mbc1::new(cartridge)
    }

    fn read(&self, addr: u16) -> u8 {
        Mbc1::read(self, addr)
    }

    fn write(&mut self, addr: u16, value: u8) {
        Mbc1::write(self, addr, value);
    }
}

/// The mapper for a cartridge: MBC1, the only controller implemented.
pub fn get_mapper(cartridge: Cartridge) -> (m: Mbc1)
    ensures
        m@.wf(),
        m@.rom == cartridge.rom_data@,
        m@.ram == Seq::new(ERAM_SIZE as nat, |i: int| 0u8),
        !m@.ram_enabled,
        m@.rom_bank == 1,
        m@.bank_high == 0,
        !m@.ram_banking,
{
    Mbc1::new(cartridge)
}

} // verus!
