//! The frame loop: one CPU step, then the timer and the LCD advance by the
//! cycles it took.
use vstd::prelude::*;
use crate::cartridge::Cartridge;
use crate::cpu::CPU;
use crate::lcd::{Lcd, LcdView, lcd_update};
use crate::machine::{Machine, sub_cycles};
use crate::ppu::is_frame_of;
use crate::registers::Registers;
use crate::timer::{Timer, TimerView, timer_update};

verus! {

/// One step of the whole machine: the CPU steps, the timer and then the
/// LCD consume its cycles; the flag tells whether a frame was completed.
pub open spec fn frame_step(cpu: Machine, timer: TimerView, lcd: LcdView) -> (
    Machine,
    TimerView,
    LcdView,
    bool,
) {
    let m = cpu.step();
    let delta = sub_cycles(m.cycles, cpu.cycles);
    let (t, b1) = timer_update(timer, m.bus, delta as int);
    let (l, b2, ready) = lcd_update(lcd, b1, delta as int);
    (Machine { bus: b2, ..m }, t, l, ready)
}

/// The emulator: CPU (with its bus), timer and LCD, and the host's
/// running and paused flags.
pub struct Context {
    pub is_running: bool,
    pub is_paused: bool,
    /// Steps taken.
    pub ticks: u64,
    pub cpu: CPU,
    pub timer: Timer,
    pub lcd: Lcd,
}

impl Context {
    pub open spec fn wf(&self) -> bool {
        self.cpu.wf() && self.timer.wf() && self.lcd.wf()
    }

    pub fn new(cartridge: Cartridge) -> (c: Context)
        ensures
            c.wf(),
            !c.is_running && !c.is_paused,
            c.ticks == 0,
            c.cpu.registers == Registers::power_on(),
            c.cpu.cycles == 0,
            c.cpu.bus@.mapper.rom == cartridge.rom_data@,
            c.timer@ == (TimerView { div_counter: 0, tima_counter: 0 }),
            c.lcd@ == (LcdView { counter: 456, stat_line: false }),
    {
        Context {
            is_running: false,
            is_paused: false,
            ticks: 0,
            cpu: CPU::new(cartridge),
            timer: Timer::new(),
            lcd: Lcd::new(),
        }
    }

    /// Marks the emulator running and not paused; the host then calls
    /// `step` while `is_running` holds.
    pub fn start(&mut self)
        ensures
            final(self).is_running && !final(self).is_paused,
            final(self).ticks == old(self).ticks,
            final(self).cpu@ == old(self).cpu@,
            final(self).timer@ == old(self).timer@,
            final(self).lcd@ == old(self).lcd@,
    {
        self.is_running = true;
        self.is_paused = false;
    }

    pub fn pause(&mut self)
        ensures
            final(self).is_paused,
            final(self).is_running == old(self).is_running,
            final(self).ticks == old(self).ticks,
            final(self).cpu@ == old(self).cpu@,
            final(self).timer@ == old(self).timer@,
            final(self).lcd@ == old(self).lcd@,
    {
        self.is_paused = true;
    }

    /// Stops the emulator: the host's loop ends.
    pub fn stop(&mut self)
        ensures
            !final(self).is_running,
            final(self).is_paused == old(self).is_paused,
            final(self).ticks == old(self).ticks,
            final(self).cpu@ == old(self).cpu@,
            final(self).timer@ == old(self).timer@,
            final(self).lcd@ == old(self).lcd@,
    {
        self.is_running = false;
    }

    /// One step of the machine, unless paused; a tick is counted either way.
    /// Returns the rendered background when the LCD entered VBlank during
    /// the step.
    pub fn step(&mut self) -> (frame: Option<Vec<u8>>)
        requires
            old(self).wf(),
        ensures
            final(self).wf(),
            final(self).is_running == old(self).is_running,
            final(self).is_paused == old(self).is_paused,
            old(self).is_paused ==> frame.is_none() && final(self).cpu@ == old(self).cpu@
                && final(self).timer@ == old(self).timer@ && final(self).lcd@ == old(self).lcd@
                && final(self).ticks == old(self).ticks.wrapping_add(1),
            !old(self).is_paused ==> ({
                let (m, t, l, ready) = frame_step(old(self).cpu@, old(self).timer@, old(self).lcd@);
                &&& final(self).cpu@ == m
                &&& final(self).timer@ == t
                &&& final(self).lcd@ == l
                &&& frame.is_some() == ready
                &&& ready ==> is_frame_of(frame.unwrap()@, m.bus)
                &&& final(self).ticks == old(self).ticks.wrapping_add(1)
            }),
    {
        if self.is_paused {
            self.ticks = self.ticks.wrapping_add(1);
            return None;
        }
        let delta = self.cpu.step();
        self.timer.update_timer(&mut self.cpu.bus, delta);
        let ready = self.lcd.update_graphics(&mut self.cpu.bus, delta);
        self.ticks = self.ticks.wrapping_add(1);
        if ready {
            Some(self.lcd.render_frame(&self.cpu.bus))
        } else {
            None
        }
    }
}

} // verus!
