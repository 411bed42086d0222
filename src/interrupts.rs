//! The interrupt protocol: IF/IE bits, priority and vectors.
use vstd::prelude::*;
use crate::bus::{Bus, BusView};

verus! {

pub const INTERRUPT_ENABLE_ADDR: u16 = 0xFFFF;
pub const INTERRUPT_FLAG_ADDR: u16 = 0xFF0F;

/// The five interrupt sources, highest priority first.
#[derive(Debug, Clone, Copy, PartialEq, Eq, Structural)]
pub enum InterruptType {
    VBlank,
    LCDStat,
    Timer,
    Serial,
    Joypad,
}

/// The address that each interrupt source jumps to.
#[derive(Debug, Clone, Copy, PartialEq, Eq, Structural)]
pub enum InterruptAddress {
    VBlank,
    LCDStat,
    Timer,
    Serial,
    Joypad,
}

impl InterruptType {
    /// The source's bit in IF and IE.
    pub open spec fn index(self) -> u8 {
        match self {
            InterruptType::VBlank => 0,
            InterruptType::LCDStat => 1,
            InterruptType::Timer => 2,
            InterruptType::Serial => 3,
            InterruptType::Joypad => 4,
        }
    }

    pub open spec fn mask(self) -> u8 {
        (1u8 << self.index())
    }

    /// The source's bit in IF and IE.
    pub fn bit(self) -> (r: u8)
        ensures
            r == self.index(),
            r < 5,
    {
        match self {
            InterruptType::VBlank => 0,
            InterruptType::LCDStat => 1,
            InterruptType::Timer => 2,
            InterruptType::Serial => 3,
            InterruptType::Joypad => 4,
        }
    }
}

impl InterruptAddress {
    pub open spec fn value(self) -> u16 {
        match self {
            InterruptAddress::VBlank => 0x40,
            InterruptAddress::LCDStat => 0x48,
            InterruptAddress::Timer => 0x50,
            InterruptAddress::Serial => 0x58,
            InterruptAddress::Joypad => 0x60,
        }
    }

    /// The vector address.
    pub fn address(self) -> (r: u16)
        ensures
            r == self.value(),
    {
        match self {
            InterruptAddress::VBlank => 0x40,
            InterruptAddress::LCDStat => 0x48,
            InterruptAddress::Timer => 0x50,
            InterruptAddress::Serial => 0x58,
            InterruptAddress::Joypad => 0x60,
        }
    }
}

/// The vector of an interrupt source: 0x40 + 8 * its bit.
pub open spec fn vector_of(i: InterruptType) -> u16 {
    (0x40 + 8 * i.index()) as u16
}

/// The pending source of highest priority: the lowest of bits 0-4 set in
/// `flags`.
pub open spec fn highest_pending(flags: u8) -> Option<InterruptType> {
    if flags & 1u8 != 0 {
        Some(InterruptType::VBlank)
    } else if flags & 2u8 != 0 {
        Some(InterruptType::LCDStat)
    } else if flags & 4u8 != 0 {
        Some(InterruptType::Timer)
    } else if flags & 8u8 != 0 {
        Some(InterruptType::Serial)
    } else if flags & 16u8 != 0 {
        Some(InterruptType::Joypad)
    } else {
        None
    }
}

/// The pending interrupt of highest priority among `interrupt_flags`
/// (usually IE & IF).
pub fn get_requested_interrupt(interrupt_flags: u8) -> (r: Option<InterruptType>)
    ensures
        r == highest_pending(interrupt_flags),
{
    let mut i: u8 = 0;
    while i < 5
        invariant
            i <= 5,
            forall|j: u8| j < i ==> interrupt_flags & (1u8 << j) == 0,
        decreases 5 - i,
    {
        if interrupt_flags & (1u8 << i) != 0 {
            proof {
                assert(1u8 << 0u8 == 1u8 && 1u8 << 1u8 == 2u8 && 1u8 << 2u8 == 4u8 && 1u8 << 3u8
                    == 8u8 && 1u8 << 4u8 == 16u8) by (bit_vector);
            }
            return Some(
                if i == 0 {
                    InterruptType::VBlank
                } else if i == 1 {
                    InterruptType::LCDStat
                } else if i == 2 {
                    InterruptType::Timer
                } else if i == 3 {
                    InterruptType::Serial
                } else {
                    InterruptType::Joypad
                },
            );
        }
        i += 1;
    }
    proof {
        assert(1u8 << 0u8 == 1u8 && 1u8 << 1u8 == 2u8 && 1u8 << 2u8 == 4u8 && 1u8 << 3u8 == 8u8
            && 1u8 << 4u8 == 16u8) by (bit_vector);
        assert(interrupt_flags & (1u8 << 0u8) == 0);
        assert(interrupt_flags & (1u8 << 1u8) == 0);
        assert(interrupt_flags & (1u8 << 2u8) == 0);
        assert(interrupt_flags & (1u8 << 3u8) == 0);
        assert(interrupt_flags & (1u8 << 4u8) == 0);
    }
    None
}

/// The bus with an interrupt's bit set in IF (read IF, OR in the bit, write IF).
pub open spec fn raise(bus: BusView, i: InterruptType) -> BusView {
    bus.write(INTERRUPT_FLAG_ADDR, bus.read(INTERRUPT_FLAG_ADDR) | i.mask())
}

/// Raises an interrupt: IF |= its bit.
pub fn request_interrupt(bus: &mut Bus, interrupt: InterruptType)
    requires
        old(bus)@.wf(),
    ensures
        final(bus)@ == raise(old(bus)@, interrupt),
        final(bus)@.wf(),
{
    let current = bus.read_byte(INTERRUPT_FLAG_ADDR);
    let updated = current | (1u8 << interrupt.bit());
    bus.write_byte(INTERRUPT_FLAG_ADDR, updated);
}

/// Clears an interrupt's bit: IF = `interrupt_flags` without it.
pub fn acknowledge_interrupt(bus: &mut Bus, interrupt_flags: u8, interrupt: InterruptType)
    requires
        old(bus)@.wf(),
    ensures
        final(bus)@ == old(bus)@.write(INTERRUPT_FLAG_ADDR, interrupt_flags & !interrupt.mask()),
        final(bus)@.wf(),
{
    let cleared = interrupt_flags & !(1u8 << interrupt.bit());
    bus.write_byte(INTERRUPT_FLAG_ADDR, cleared);
}

pub fn get_interrupt_address(interrupt: InterruptType) -> (r: InterruptAddress)
    ensures
        r.value() == vector_of(interrupt),
{
    match interrupt {
        InterruptType::VBlank => InterruptAddress::VBlank,
        InterruptType::LCDStat => InterruptAddress::LCDStat,
        InterruptType::Timer => InterruptAddress::Timer,
        InterruptType::Serial => InterruptAddress::Serial,
        InterruptType::Joypad => InterruptAddress::Joypad,
    }
}

} // verus!
