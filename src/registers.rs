use vstd::prelude::*;

verus! {

/// The F byte holding the four flags Z (bit 7), N (6), H (5) and C (4);
/// the low nibble is zero.
pub open spec fn flags_of(z: bool, n: bool, h: bool, c: bool) -> u8 {
    (if z { 0x80u8 } else { 0u8 }) | (if n { 0x40u8 } else { 0u8 }) | (if h { 0x20u8 } else {
        0u8
    }) | (if c { 0x10u8 } else { 0u8 })
}

pub open spec fn zf(f: u8) -> bool {
    f & 0x80u8 != 0
}

pub open spec fn nf(f: u8) -> bool {
    f & 0x40u8 != 0
}

pub open spec fn hf(f: u8) -> bool {
    f & 0x20u8 != 0
}

pub open spec fn cf(f: u8) -> bool {
    f & 0x10u8 != 0
}

/// A 16-bit word whose high byte is `hi` and low byte is `lo`.
pub open spec fn pair(hi: u8, lo: u8) -> u16 {
    (hi as int * 256 + lo as int) as u16
}

/// Reading back the four flags of a packed F byte gives what was packed,
/// and the low nibble is zero.
pub proof fn lemma_flags_of(z: bool, n: bool, h: bool, c: bool)
    ensures
        flags_of(z, n, h, c) & 0x0Fu8 == 0,
        zf(flags_of(z, n, h, c)) == z,
        nf(flags_of(z, n, h, c)) == n,
        hf(flags_of(z, n, h, c)) == h,
        cf(flags_of(z, n, h, c)) == c,
{
    let zb: u8 = if z { 0x80u8 } else { 0u8 };
    let nb: u8 = if n { 0x40u8 } else { 0u8 };
    let hb: u8 = if h { 0x20u8 } else { 0u8 };
    let cb: u8 = if c { 0x10u8 } else { 0u8 };
    assert(flags_of(z, n, h, c) == zb | nb | hb | cb);
    assert(((zb | nb | hb | cb) & 0x0Fu8 == 0) && (((zb | nb | hb | cb) & 0x80u8 != 0) == (zb
        == 0x80u8)) && (((zb | nb | hb | cb) & 0x40u8 != 0) == (nb == 0x40u8)) && (((zb | nb | hb
        | cb) & 0x20u8 != 0) == (hb == 0x20u8)) && (((zb | nb | hb | cb) & 0x10u8 != 0) == (cb
        == 0x10u8))) by (bit_vector)
        requires
            zb == 0 || zb == 0x80,
            nb == 0 || nb == 0x40,
            hb == 0 || hb == 0x20,
            cb == 0 || cb == 0x10,
    ;
}

/// The SM83 register file: eight 8-bit registers and the 16-bit SP and PC.
#[derive(Clone, Copy, Debug, PartialEq, Eq, Structural)]
pub struct Registers {
    pub a: u8,
    pub b: u8,
    pub c: u8,
    pub d: u8,
    pub e: u8,
    /// Flags: Z (bit 7), N (bit 6), H (bit 5), C (bit 4); low nibble zero.
    pub f: u8,
    pub h: u8,
    pub l: u8,
    pub sp: u16,
    pub pc: u16,
}

impl Registers {
    /// F keeps its low nibble at zero.
    pub open spec fn wf(&self) -> bool {
        self.f & 0x0Fu8 == 0
    }

    pub open spec fn bc(&self) -> u16 {
        pair(self.b, self.c)
    }

    pub open spec fn de(&self) -> u16 {
        pair(self.d, self.e)
    }

    pub open spec fn hl(&self) -> u16 {
        pair(self.h, self.l)
    }

    pub open spec fn af(&self) -> u16 {
        pair(self.a, self.f)
    }

    pub open spec fn with_bc(self, v: u16) -> Registers {
        Registers { b: (v / 256) as u8, c: (v % 256) as u8, ..self }
    }

    pub open spec fn with_de(self, v: u16) -> Registers {
        Registers { d: (v / 256) as u8, e: (v % 256) as u8, ..self }
    }

    pub open spec fn with_hl(self, v: u16) -> Registers {
        Registers { h: (v / 256) as u8, l: (v % 256) as u8, ..self }
    }

    /// Loading AF keeps F's low nibble at zero.
    pub open spec fn with_af(self, v: u16) -> Registers {
        Registers { a: (v / 256) as u8, f: ((v % 256) as u8) & 0xF0u8, ..self }
    }

    pub open spec fn with_flags(self, z: bool, n: bool, h: bool, c: bool) -> Registers {
        Registers { f: flags_of(z, n, h, c), ..self }
    }

    /// The register values handed over by the DMG boot ROM.
    pub open spec fn power_on() -> Registers {
        Registers {
            a: 0x11,
            b: 0x01,
            c: 0x00,
            d: 0x00,
            e: 0x08,
            f: 0x00,
            h: 0x00,
            l: 0x7C,
            sp: 0xFFFE,
            pc: 0x0100,
        }
    }

    pub fn new() -> (r: Registers)
        ensures
            r == Registers::power_on(),
            r.wf(),
    {
        let r = Registers {
            a: 0x11,
            b: 0x01,
            c: 0,
            d: 0,
            e: 0x08,
            f: 0,
            h: 0,
            l: 0x7C,
            sp: 0xFFFE,
            pc: 0x0100,
        };
        assert(0u8 & 0x0Fu8 == 0) by (bit_vector);
        r
    }

    pub fn get_bc(&self) -> (r: u16)
        ensures
            r == self.bc(),
    {
        self.b as u16 * 256 + self.c as u16
    }

    pub fn set_bc(&mut self, value: u16)
        ensures
            *final(self) == old(self).with_bc(value),
    {
        self.b = (value / 256) as u8;
        self.c = (value % 256) as u8;
    }

    pub fn get_de(&self) -> (r: u16)
        ensures
            r == self.de(),
    {
        self.d as u16 * 256 + self.e as u16
    }

    pub fn set_de(&mut self, value: u16)
        ensures
            *final(self) == old(self).with_de(value),
    {
        self.d = (value / 256) as u8;
        self.e = (value % 256) as u8;
    }

    pub fn get_hl(&self) -> (r: u16)
        ensures
            r == self.hl(),
    {
        self.h as u16 * 256 + self.l as u16
    }

    pub fn set_hl(&mut self, value: u16)
        ensures
            *final(self) == old(self).with_hl(value),
    {
        self.h = (value / 256) as u8;
        self.l = (value % 256) as u8;
    }

    pub fn get_af(&self) -> (r: u16)
        ensures
            r == self.af(),
    {
        self.a as u16 * 256 + self.f as u16
    }

    /// Loads AF; the low nibble of F stays zero whatever `value` holds.
    pub fn set_af(&mut self, value: u16)
        ensures
            *final(self) == old(self).with_af(value),
            final(self).wf(),
    {
        self.a = (value / 256) as u8;
        let low: u8 = (value % 256) as u8;
        assert((low & 0xF0u8) & 0x0Fu8 == 0) by (bit_vector);
        self.f = low & 0xF0;
    }

    /// Sets all four flags at once.
    pub fn set_flags(&mut self, z: bool, n: bool, h: bool, c: bool)
        ensures
            *final(self) == old(self).with_flags(z, n, h, c),
            final(self).wf(),
    {
        let zb: u8 = if z { 0x80 } else { 0 };
        let nb: u8 = if n { 0x40 } else { 0 };
        let hb: u8 = if h { 0x20 } else { 0 };
        let cb: u8 = if c { 0x10 } else { 0 };
        self.f = zb | nb | hb | cb;
        proof {
            lemma_flags_of(z, n, h, c);
        }
    }

    pub fn set_zero_flag(&mut self, flag: bool)
        requires
            old(self).wf(),
        ensures
            *final(self) == old(self).with_flags(flag, nf(old(self).f), hf(old(self).f), cf(old(self).f)),
            final(self).wf(),
    {
        let (n, h, c) = (self.get_subtraction_flag(), self.get_half_carry_flag(), self.get_carry_flag());
        self.set_flags(flag, n, h, c);
    }

    pub fn get_zero_flag(&self) -> (r: bool)
        ensures
            r == zf(self.f),
    {
        self.f & 0x80 != 0
    }

    pub fn set_subtraction_flag(&mut self, flag: bool)
        requires
            old(self).wf(),
        ensures
            *final(self) == old(self).with_flags(zf(old(self).f), flag, hf(old(self).f), cf(old(self).f)),
            final(self).wf(),
    {
        let (z, h, c) = (self.get_zero_flag(), self.get_half_carry_flag(), self.get_carry_flag());
        self.set_flags(z, flag, h, c);
    }

    pub fn get_subtraction_flag(&self) -> (r: bool)
        ensures
            r == nf(self.f),
    {
        self.f & 0x40 != 0
    }

    pub fn set_half_carry_flag(&mut self, flag: bool)
        requires
            old(self).wf(),
        ensures
            *final(self) == old(self).with_flags(zf(old(self).f), nf(old(self).f), flag, cf(old(self).f)),
            final(self).wf(),
    {
        let (z, n, c) = (self.get_zero_flag(), self.get_subtraction_flag(), self.get_carry_flag());
        self.set_flags(z, n, flag, c);
    }

    pub fn get_half_carry_flag(&self) -> (r: bool)
        ensures
            r == hf(self.f),
    {
        self.f & 0x20 != 0
    }

    pub fn set_carry_flag(&mut self, flag: bool)
        requires
            old(self).wf(),
        ensures
            *final(self) == old(self).with_flags(zf(old(self).f), nf(old(self).f), hf(old(self).f), flag),
            final(self).wf(),
    {
        let (z, n, h) = (self.get_zero_flag(), self.get_subtraction_flag(), self.get_half_carry_flag());
        self.set_flags(z, n, h, flag);
    }

    pub fn get_carry_flag(&self) -> (r: bool)
        ensures
            r == cf(self.f),
    {
        self.f & 0x10 != 0
    }
}

} // verus!
