//! The DIV/TIMA timer, driven by M-cycle deltas.
use vstd::prelude::*;
use crate::bus::{Bus, BusView, DIV_ADDR};
use crate::interrupts::{InterruptType, INTERRUPT_FLAG_ADDR, raise, request_interrupt};
use crate::utils::{bit_of, test_bit};

verus! {

pub const TIMA_REGISTER: u16 = 0xFF05;
pub const TMA_REGISTER: u16 = 0xFF06;
pub const TAC_REGISTER: u16 = 0xFF07;

/// M-cycles per TIMA count for TAC's clock select (bits 1-0):
/// 00 -> 256 (4096 Hz), 01 -> 4 (262144 Hz), 10 -> 16 (65536 Hz), 11 -> 64 (16384 Hz).
pub open spec fn tima_period(tac: u8) -> int {
    let select = tac % 4;
    if select == 0 {
        256
    } else if select == 1 {
        4
    } else if select == 2 {
        16
    } else {
        64
    }
}

/// TIMA after `n` counts, reloading from TMA on each overflow, and whether
/// an overflow happened.
pub open spec fn tima_steps(tima: u8, tma: u8, n: nat) -> (u8, bool)
    decreases n,
{
    if n == 0 {
        (tima, false)
    } else {
        let (t, overflowed) = tima_steps(tima, tma, (n - 1) as nat);
        if t == 0xFF {
            (tma, true)
        } else {
            ((t + 1) as u8, overflowed)
        }
    }
}

/// The timer's own counters: M-cycles since the last DIV and TIMA counts.
pub struct TimerView {
    pub div_counter: int,
    pub tima_counter: int,
}

/// What the timer does over `cycles` M-cycles: DIV advances once per 64;
/// when TAC bit 2 is set, TIMA advances once per period, and an overflow
/// reloads TMA and raises the Timer interrupt.
pub open spec fn timer_update(t: TimerView, bus: BusView, cycles: int) -> (TimerView, BusView) {
    let div_total = t.div_counter + cycles;
    let bus1 = bus.privileged_write(DIV_ADDR, ((bus.io[0x04] + div_total / 64) % 256) as u8);
    let tac = bus1.io[0x07];
    if !bit_of(tac, 2) {
        (TimerView { div_counter: div_total % 64, ..t }, bus1)
    } else {
        let total = t.tima_counter + cycles;
        let (tima, overflowed) = tima_steps(bus1.io[0x05], bus1.io[0x06], (total / tima_period(tac)) as nat);
        let bus2 = bus1.write(TIMA_REGISTER, tima);
        (
            TimerView { div_counter: div_total % 64, tima_counter: total % tima_period(tac) },
            if overflowed {
                raise(bus2, InterruptType::Timer)
            } else {
                bus2
            },
        )
    }
}

#[derive(Debug)]
pub struct Timer {
    divider_counter: u64,
    counter: u64,
}

impl View for Timer {
    type V = TimerView;

    closed spec fn view(&self) -> TimerView {
        TimerView { div_counter: self.divider_counter as int, tima_counter: self.counter as int }
    }
}

impl Timer {
    pub open spec fn wf(&self) -> bool {
        0 <= self@.div_counter < 64 && 0 <= self@.tima_counter < 256
    }

    pub fn new() -> (t: Timer)
        ensures
            t.wf(),
            t@ == (TimerView { div_counter: 0, tima_counter: 0 }),
    {
        Timer { divider_counter: 0, counter: 0 }
    }

    /// Advances DIV and TIMA by `cycles` M-cycles.
    pub fn update_timer(&mut self, bus: &mut Bus, cycles: u64)
        requires
            old(self).wf(),
            old(bus)@.wf(),
        ensures
            (final(self)@, final(bus)@) == timer_update(old(self)@, old(bus)@, cycles as int),
            final(self).wf(),
            final(bus)@.wf(),
    {
        self.update_divider_register(bus, cycles);
        if !self.is_clock_enabled(bus) {
            return;
        }
        let period = self.select_clock(bus);
        let total: u128 = self.counter as u128 + cycles as u128;
        let counts: u128 = total / period as u128;
        let tma = bus.read_byte(TMA_REGISTER);
        let ghost tima0 = bus@.io[0x05];
        let mut tima = bus.read_byte(TIMA_REGISTER);
        let mut overflowed = false;
        let mut k: u128 = 0;
        while k < counts
            invariant
                k <= counts,
                (tima, overflowed) == tima_steps(tima0, tma, k as nat),
            decreases counts - k,
        {
            if tima == 0xFF {
                tima = tma;
                overflowed = true;
            } else {
                tima = tima + 1;
            }
            k = k + 1;
        }
        bus.write_byte(TIMA_REGISTER, tima);
        if overflowed {
            request_interrupt(bus, InterruptType::Timer);
        }
        self.counter = (total % period as u128) as u64;
    }

    /// TAC bit 2 enables TIMA.
    fn is_clock_enabled(&self, bus: &Bus) -> (r: bool)
        requires
            bus@.wf(),
        ensures
            r == bit_of(bus@.io[0x07], 2),
    {
        let byte = bus.read_byte(TAC_REGISTER);
        test_bit(byte, 2)
    }

    /// The TIMA period that TAC selects, in M-cycles.
    fn select_clock(&self, bus: &Bus) -> (r: u64)
        requires
            bus@.wf(),
        ensures
            r == tima_period(bus@.io[0x07]),
    {
        match self.get_clock_frequency(bus) {
            0 => 256,
            1 => 4,
            2 => 16,
            _ => 64,
        }
    }

    /// TAC bits 1-0.
    fn get_clock_frequency(&self, bus: &Bus) -> (r: u8)
        requires
            bus@.wf(),
        ensures
            r == bus@.io[0x07] % 4,
    {
        bus.read_byte(TAC_REGISTER) % 4
    }

    fn update_divider_register(&mut self, bus: &mut Bus, cycles: u64)
        requires
            old(self).wf(),
            old(bus)@.wf(),
        ensures
            final(self)@ == (TimerView {
                div_counter: (old(self)@.div_counter + cycles) % 64,
                ..old(self)@
            }),
            final(bus)@ == old(bus)@.privileged_write(
                DIV_ADDR,
                ((old(bus)@.io[0x04] + (old(self)@.div_counter + cycles) / 64) % 256) as u8,
            ),
            final(self).wf(),
            final(bus)@.wf(),
    {
        let total: u128 = self.divider_counter as u128 + cycles as u128;
        let div = bus.read_byte(DIV_ADDR);
        let updated: u8 = ((div as u128 + total / 64) % 256) as u8;
        bus.privileged_io_write(DIV_ADDR, updated);
        self.divider_counter = (total % 64) as u64;
    }
}

} // verus!

verus! {

/// With TAC = 0x05 (enabled, 262144 Hz) and no cycles carried over, TIMA
/// counts exactly once per 4 M-cycles; an overflow loads TMA into TIMA and
/// sets IF's Timer bit.
pub proof fn lemma_fast_clock(t: TimerView, bus: BusView, cycles: nat)
    requires
        bus.wf(),
        bus.io[0x07] == 0x05,
        t.tima_counter == 0,
        0 <= t.div_counter < 64,
    ensures
        ({
            let (t2, b2) = timer_update(t, bus, cycles as int);
            &&& b2.io[0x05] == tima_steps(bus.io[0x05], bus.io[0x06], cycles / 4).0
            &&& t2.tima_counter == cycles % 4
            &&& (cycles == 4 && bus.io[0x05] == 0xFF) ==> b2.io[0x05] == bus.io[0x06] && b2.read(
                INTERRUPT_FLAG_ADDR,
            ) & 0x04u8 != 0
            &&& (cycles == 4 && bus.io[0x05] < 0xFF) ==> b2.io[0x05] == bus.io[0x05] + 1
        }),
{
    assert((5u8 >> 2u8) & 1u8 == 1u8) by (bit_vector);
    let div_total = t.div_counter + cycles;
    let bus1 = bus.privileged_write(DIV_ADDR, ((bus.io[0x04] + div_total / 64) % 256) as u8);
    assert(bus1.io[0x07] == 5 && bus1.io[0x05] == bus.io[0x05] && bus1.io[0x06] == bus.io[0x06]);
    assert(tima_period(5) == 4);
    let (tima, overflowed) = tima_steps(bus.io[0x05], bus.io[0x06], cycles / 4);
    let bus2 = bus1.write(TIMA_REGISTER, tima);
    assert(bus2.io[0x05] == tima);
    if overflowed {
        let f = bus2.io[0x0F];
        assert((f | 4u8) & 4u8 != 0) by (bit_vector);
        assert(InterruptType::Timer.mask() == 4u8) by (bit_vector);
    }
    if cycles == 4 {
        assert(tima_steps(bus.io[0x05], bus.io[0x06], 0) == (bus.io[0x05], false));
    }
}

/// Counting `a` then `b` times gives the TIMA that counting `a + b` times does.
proof fn lemma_tima_steps_add(tima: u8, tma: u8, a: nat, b: nat)
    ensures
        tima_steps(tima, tma, a + b).0 == tima_steps(tima_steps(tima, tma, a).0, tma, b).0,
    decreases b,
{
    if b > 0 {
        lemma_tima_steps_add(tima, tma, a, (b - 1) as nat);
        assert((a + b - 1) as nat == a + (b - 1) as nat);
    }
}

/// With TAC = 0x05, two consecutive updates leave TIMA and the cycles
/// carried over where one update over their summed cycles would: TIMA
/// counts once per 4 M-cycles however the cycles are split into calls.
pub proof fn lemma_fast_clock_compose(t: TimerView, bus: BusView, c1: nat, c2: nat)
    requires
        bus.wf(),
        bus.io[0x07] == 0x05,
        0 <= t.tima_counter < 4,
        0 <= t.div_counter < 64,
    ensures
        ({
            let (t1, b1) = timer_update(t, bus, c1 as int);
            let (t2, b2) = timer_update(t1, b1, c2 as int);
            let total = t.tima_counter + c1 + c2;
            &&& b2.io[0x05] == tima_steps(bus.io[0x05], bus.io[0x06], (total / 4) as nat).0
            &&& t2.tima_counter == total % 4
        }),
{
    assert((5u8 >> 2u8) & 1u8 == 1u8) by (bit_vector);
    assert(tima_period(5) == 4);
    let (t1, b1) = timer_update(t, bus, c1 as int);
    let x = t.tima_counter + c1;
    let first = tima_steps(bus.io[0x05], bus.io[0x06], (x / 4) as nat);
    assert(b1.io[0x07] == 5 && b1.io[0x06] == bus.io[0x06] && b1.io[0x05] == first.0);
    assert(t1.tima_counter == x % 4);
    assert(x % 4 + c2 >= 0);
    assert(((x % 4 + c2) / 4) + x / 4 == (x + c2) / 4);
    lemma_tima_steps_add(bus.io[0x05], bus.io[0x06], (x / 4) as nat, ((x % 4 + c2) / 4) as nat);
    assert((x / 4) as nat + ((x % 4 + c2) / 4) as nat == ((x + c2) / 4) as nat);
}

} // verus!
