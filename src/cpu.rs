//! The SM83 interpreter: fetch, decode, execute, interrupt servicing.
use vstd::prelude::*;
use crate::alu::rot_spec;
use crate::bus::Bus;
use crate::cartridge::Cartridge;
use crate::interrupts::{
    InterruptType, INTERRUPT_FLAG_ADDR, INTERRUPT_ENABLE_ADDR, get_requested_interrupt,
    acknowledge_interrupt, get_interrupt_address,
};
use crate::machine::{Machine, add_cycles, sub_cycles, cond, get_rp, set_rp, get_rp2, set_rp2};
use crate::registers::{Registers, flags_of, cf, lemma_flags_of};
use crate::utils::test_bit;

verus! {

/// The CPU and the bus it owns.
#[derive(Debug)]
pub struct CPU {
    pub registers: Registers,
    /// M-cycles spent so far (wrapping at 2^64).
    pub cycles: u64,
    pub bus: Bus,
    /// Interrupt master enable.
    pub ime: bool,
    /// EI was executed: IME turns on after the next instruction.
    pub ime_pending: bool,
    pub halted: bool,
}

impl View for CPU {
    type V = Machine;

    open spec fn view(&self) -> Machine {
        Machine {
            regs: self.registers,
            bus: self.bus@,
            ime: self.ime,
            ime_pending: self.ime_pending,
            halted: self.halted,
            cycles: self.cycles,
        }
    }
}

impl CPU {
    pub open spec fn wf(&self) -> bool {
        self.registers.wf() && self.bus@.wf()
    }

    /// A CPU in the DMG boot hand-off state, interrupts disabled.
    pub fn new(cartridge: Cartridge) -> (cpu: CPU)
        ensures
            cpu.wf(),
            cpu.registers == Registers::power_on(),
            cpu.cycles == 0,
            !cpu.ime && !cpu.ime_pending && !cpu.halted,
            cpu.bus@.mapper.rom == cartridge.rom_data@,
            cpu.bus@.io == Seq::new(0x80, |i: int| 0u8),
            cpu.bus@.ie == 0,
    {
        CPU {
            registers: Registers::new(),
            cycles: 0,
            bus: Bus::new(cartridge),
            ime: false,
            ime_pending: false,
            halted: false,
        }
    }

    pub fn increment_cycles(&mut self, n: u64)
        ensures
            final(self)@ == old(self)@.tick(n),
            final(self).wf() == old(self).wf(),
    {
        self.cycles = self.cycles.wrapping_add(n);
    }

    pub fn next_byte(&mut self) -> (r: u8)
        requires
            old(self).wf(),
        ensures
            r == old(self)@.imm8(),
            final(self)@ == old(self)@.skip(1),
            final(self).wf(),
    {
        let pc = self.registers.pc;
        let byte = self.bus.read_byte(pc);
        self.registers.pc = ((pc as u32 + 1) % 65536) as u16;
        byte
    }

    pub fn next_word(&mut self) -> (r: u16)
        requires
            old(self).wf(),
        ensures
            r == old(self)@.imm16(),
            final(self)@ == old(self)@.skip(2),
            final(self).wf(),
    {
        let pc = self.registers.pc;
        let word = self.bus.read_word(pc);
        self.registers.pc = ((pc as u32 + 2) % 65536) as u16;
        word
    }

    /// Operand `i` of table r: B, C, D, E, H, L, (HL), A.
    pub fn get_register_from_table_r(&self, i: u8) -> (r: u8)
        requires
            self.wf(),
            i < 8,
        ensures
            r == self@.get_r(i),
    {
        match i {
            0 => self.registers.b,
            1 => self.registers.c,
            2 => self.registers.d,
            3 => self.registers.e,
            4 => self.registers.h,
            5 => self.registers.l,
            6 => self.bus.read_byte(self.registers.get_hl()),
            _ => self.registers.a,
        }
    }

    /// Writes operand `i` of table r; (HL) writes through the bus.
    pub fn set_register_from_table_r(&mut self, i: u8, value: u8)
        requires
            old(self).wf(),
            i < 8,
        ensures
            final(self)@ == old(self)@.set_r(i, value),
            final(self).wf(),
    {
        match i {
            0 => self.registers.b = value,
            1 => self.registers.c = value,
            2 => self.registers.d = value,
            3 => self.registers.e = value,
            4 => self.registers.h = value,
            5 => self.registers.l = value,
            6 => {
                let hl = self.registers.get_hl();
                self.bus.write_byte(hl, value);
            },
            _ => self.registers.a = value,
        }
    }

    /// Register pair `i` of table rp: BC, DE, HL, SP.
    pub fn get_register_from_table_rp(&self, i: u8) -> (r: u16)
        requires
            i < 4,
        ensures
            r == get_rp(self.registers, i),
    {
        match i {
            0 => self.registers.get_bc(),
            1 => self.registers.get_de(),
            2 => self.registers.get_hl(),
            _ => self.registers.sp,
        }
    }

    pub fn set_register_from_table_rp(&mut self, i: u8, value: u16)
        requires
            old(self).wf(),
            i < 4,
        ensures
            final(self)@ == old(self)@.with_regs(set_rp(old(self).registers, i, value)),
            final(self).wf(),
    {
        match i {
            0 => self.registers.set_bc(value),
            1 => self.registers.set_de(value),
            2 => self.registers.set_hl(value),
            _ => self.registers.sp = value,
        }
    }

    /// Register pair `i` of table rp2: BC, DE, HL, AF.
    pub fn get_register_from_table_rp2(&self, i: u8) -> (r: u16)
        requires
            i < 4,
        ensures
            r == get_rp2(self.registers, i),
    {
        if i < 3 {
            self.get_register_from_table_rp(i)
        } else {
            self.registers.get_af()
        }
    }

    pub fn set_register_from_table_rp2(&mut self, i: u8, value: u16)
        requires
            old(self).wf(),
            i < 4,
        ensures
            final(self)@ == old(self)@.with_regs(set_rp2(old(self).registers, i, value)),
            final(self).wf(),
    {
        match i {
            0 => self.registers.set_bc(value),
            1 => self.registers.set_de(value),
            2 => self.registers.set_hl(value),
            _ => self.registers.set_af(value),
        }
    }

    pub fn nop(&mut self)
        requires
            old(self).wf(),
        ensures
            final(self)@ == old(self)@.nop(),
            final(self).wf(),
    {
        self.increment_cycles(1);
    }

    pub fn halt(&mut self)
        requires
            old(self).wf(),
        ensures
            final(self)@ == old(self)@.halt(),
            final(self).wf(),
    {
        self.halted = true;
        self.increment_cycles(1);
    }

    pub fn stop(&mut self)
        requires
            old(self).wf(),
        ensures
            final(self)@ == old(self)@.stop(),
            final(self).wf(),
    {
        self.next_byte();
        self.increment_cycles(1);
    }

    /// JR by the signed displacement `d`; PC is already past `d`.
    pub fn jr(&mut self, d: u8)
        requires
            old(self).wf(),
        ensures
            final(self)@ == old(self)@.jr(d),
            final(self).wf(),
    {
        let back: u32 = if d >= 128 {
            256
        } else {
            0
        };
        let target: u32 = self.registers.pc as u32 + 65536 + d as u32 - back;
        self.registers.pc = (target % 65536) as u16;
        self.increment_cycles(3);
    }

    pub fn check_condition(&self, condition: u8) -> (r: bool)
        requires
            condition < 4,
        ensures
            r == cond(self.registers.f, condition),
    {
        match condition {
            0 => !self.registers.get_zero_flag(),
            1 => self.registers.get_zero_flag(),
            2 => !self.registers.get_carry_flag(),
            _ => self.registers.get_carry_flag(),
        }
    }

    pub fn jr_conditional(&mut self, d: u8, condition: u8)
        requires
            old(self).wf(),
            condition < 4,
        ensures
            final(self)@ == old(self)@.jr_conditional(d, condition),
            final(self).wf(),
    {
        if self.check_condition(condition) {
            self.jr(d);
        } else {
            self.increment_cycles(2);
        }
    }

    pub fn jp_cc(&mut self, addr: u16, condition: u8)
        requires
            old(self).wf(),
            condition < 4,
        ensures
            final(self)@ == old(self)@.jp_cc(addr, condition),
            final(self).wf(),
    {
        if self.check_condition(condition) {
            self.jp(addr);
        } else {
            self.increment_cycles(3);
        }
    }

    pub fn jp(&mut self, addr: u16)
        requires
            old(self).wf(),
        ensures
            final(self)@ == old(self)@.jp(addr),
            final(self).wf(),
    {
        self.registers.pc = addr;
        self.increment_cycles(4);
    }

    /// SP -= 2, then the word is written at the new SP.
    fn stack_push(&mut self, value: u16)
        requires
            old(self).wf(),
        ensures
            final(self)@ == old(self)@.push(value),
            final(self).wf(),
    {
        let sp = ((self.registers.sp as u32 + 0xFFFE) % 65536) as u16;
        self.registers.sp = sp;
        self.bus.write_word(sp, value);
    }

    pub fn call(&mut self, addr: u16)
        requires
            old(self).wf(),
        ensures
            final(self)@ == old(self)@.call(addr),
            final(self).wf(),
    {
        let pc = self.registers.pc;
        self.stack_push(pc);
        self.registers.pc = addr;
        self.increment_cycles(6);
    }

    pub fn rst(&mut self, vector: u16)
        requires
            old(self).wf(),
        ensures
            final(self)@ == old(self)@.rst(vector),
            final(self).wf(),
    {
        let pc = self.registers.pc;
        self.stack_push(pc);
        self.registers.pc = vector;
        self.increment_cycles(4);
    }

    pub fn call_conditional(&mut self, addr: u16, condition: u8)
        requires
            old(self).wf(),
            condition < 4,
        ensures
            final(self)@ == old(self)@.call_conditional(addr, condition),
            final(self).wf(),
    {
        if self.check_condition(condition) {
            self.call(addr);
        } else {
            self.increment_cycles(3);
        }
    }

    pub fn add_helper(&mut self, value: u8, should_carry: bool)
        requires
            old(self).wf(),
        ensures
            final(self)@ == old(self)@.alu(
                if should_carry {
                    1
                } else {
                    0
                },
                value,
            ),
            final(self).wf(),
    {
        let a = self.registers.a;
        let carry: u16 = if should_carry && self.registers.get_carry_flag() {
            1
        } else {
            0
        };
        let sum: u16 = a as u16 + value as u16 + carry;
        let half = (a % 16) as u16 + (value % 16) as u16 + carry > 15;
        self.registers.a = (sum % 256) as u8;
        self.registers.set_flags(sum % 256 == 0, false, half, sum > 255);
        self.increment_cycles(1);
    }

    pub fn add(&mut self, value: u8)
        requires
            old(self).wf(),
        ensures
            final(self)@ == old(self)@.alu(0, value),
            final(self).wf(),
    {
        self.add_helper(value, false);
    }

    pub fn adc(&mut self, value: u8)
        requires
            old(self).wf(),
        ensures
            final(self)@ == old(self)@.alu(1, value),
            final(self).wf(),
    {
        self.add_helper(value, true);
    }

    pub fn subtract_helper(&mut self, value: u8, should_carry: bool)
        requires
            old(self).wf(),
        ensures
            final(self)@ == old(self)@.alu(
                if should_carry {
                    3
                } else {
                    2
                },
                value,
            ),
            final(self).wf(),
    {
        let a = self.registers.a;
        let carry: u16 = if should_carry && self.registers.get_carry_flag() {
            1
        } else {
            0
        };
        let result: u8 = ((a as u16 + 256 - value as u16 - carry) % 256) as u8;
        let half = ((a % 16) as u16) < (value % 16) as u16 + carry;
        let borrow = (a as u16) < value as u16 + carry;
        self.registers.a = result;
        self.registers.set_flags(result == 0, true, half, borrow);
        self.increment_cycles(1);
    }

    pub fn sub(&mut self, value: u8)
        requires
            old(self).wf(),
        ensures
            final(self)@ == old(self)@.alu(2, value),
            final(self).wf(),
    {
        self.subtract_helper(value, false);
    }

    pub fn sbc(&mut self, value: u8)
        requires
            old(self).wf(),
        ensures
            final(self)@ == old(self)@.alu(3, value),
            final(self).wf(),
    {
        self.subtract_helper(value, true);
    }

    pub fn and(&mut self, value: u8)
        requires
            old(self).wf(),
        ensures
            final(self)@ == old(self)@.alu(4, value),
            final(self).wf(),
    {
        let result = self.registers.a & value;
        self.registers.a = result;
        self.registers.set_flags(result == 0, false, true, false);
        self.increment_cycles(1);
    }

    pub fn xor(&mut self, value: u8)
        requires
            old(self).wf(),
        ensures
            final(self)@ == old(self)@.alu(5, value),
            final(self).wf(),
    {
        let result = self.registers.a ^ value;
        self.registers.a = result;
        self.registers.set_flags(result == 0, false, false, false);
        self.increment_cycles(1);
    }

    pub fn or(&mut self, value: u8)
        requires
            old(self).wf(),
        ensures
            final(self)@ == old(self)@.alu(6, value),
            final(self).wf(),
    {
        let result = self.registers.a | value;
        self.registers.a = result;
        self.registers.set_flags(result == 0, false, false, false);
        self.increment_cycles(1);
    }

    /// Compares A with `value`: the flags of A - value, A unchanged.
    pub fn cp(&mut self, value: u8)
        requires
            old(self).wf(),
        ensures
            final(self)@ == old(self)@.alu(7, value),
            final(self).wf(),
    {
        let a = self.registers.a;
        let result: u8 = ((a as u16 + 256 - value as u16) % 256) as u8;
        self.registers.set_flags(result == 0, true, a % 16 < value % 16, a < value);
        self.increment_cycles(1);
    }

    pub fn dec(&mut self, i: u8)
        requires
            old(self).wf(),
            i < 8,
        ensures
            final(self)@ == old(self)@.dec(i),
            final(self).wf(),
    {
        let value = self.get_register_from_table_r(i);
        let result: u8 = ((value as u16 + 255) % 256) as u8;
        let carry = self.registers.get_carry_flag();
        self.set_register_from_table_r(i, result);
        self.registers.set_flags(result == 0, true, value % 16 == 0, carry);
        self.increment_cycles(
            if i == 6 {
                3
            } else {
                1
            },
        );
    }

    pub fn inc(&mut self, i: u8)
        requires
            old(self).wf(),
            i < 8,
        ensures
            final(self)@ == old(self)@.inc(i),
            final(self).wf(),
    {
        let value = self.get_register_from_table_r(i);
        let result: u8 = ((value as u16 + 1) % 256) as u8;
        let carry = self.registers.get_carry_flag();
        self.set_register_from_table_r(i, result);
        self.registers.set_flags(result == 0, false, value % 16 == 15, carry);
        self.increment_cycles(
            if i == 6 {
                3
            } else {
                1
            },
        );
    }

    pub fn dec_16(&mut self, i: u8)
        requires
            old(self).wf(),
            i < 4,
        ensures
            final(self)@ == old(self)@.dec_16(i),
            final(self).wf(),
    {
        let value = ((self.get_register_from_table_rp(i) as u32 + 0xFFFF) % 65536) as u16;
        self.set_register_from_table_rp(i, value);
        self.increment_cycles(2);
    }

    pub fn inc_16(&mut self, i: u8)
        requires
            old(self).wf(),
            i < 4,
        ensures
            final(self)@ == old(self)@.inc_16(i),
            final(self).wf(),
    {
        let value = ((self.get_register_from_table_rp(i) as u32 + 1) % 65536) as u16;
        self.set_register_from_table_rp(i, value);
        self.increment_cycles(2);
    }

    pub fn add_hl(&mut self, value: u16)
        requires
            old(self).wf(),
        ensures
            final(self)@ == old(self)@.add_hl(value),
            final(self).wf(),
    {
        let hl = self.registers.get_hl();
        let sum: u32 = hl as u32 + value as u32;
        let zero = self.registers.get_zero_flag();
        self.registers.set_hl((sum % 65536) as u16);
        self.registers.set_flags(zero, false, hl % 4096 + value % 4096 > 4095, sum > 65535);
        self.increment_cycles(2);
    }

    /// SP plus the signed byte `d`, and the flags that ADD SP,d sets.
    fn sp_offset(&self, d: u8) -> (r: (u16, bool, bool))
        ensures
            flags_of(false, false, r.1, r.2) == crate::alu::sp_offset_spec(self.registers.sp, d).1,
            r.0 == crate::alu::sp_offset_spec(self.registers.sp, d).0,
    {
        let sp = self.registers.sp;
        let back: u32 = if d >= 128 {
            256
        } else {
            0
        };
        let sum: u32 = sp as u32 + 65536 + d as u32 - back;
        ((sum % 65536) as u16, sp % 16 + d as u16 % 16 > 15, sp % 256 + d as u16 > 255)
    }

    pub fn add_sp(&mut self, d: u8)
        requires
            old(self).wf(),
        ensures
            final(self)@ == old(self)@.add_sp(d),
            final(self).wf(),
    {
        let (sum, half, carry) = self.sp_offset(d);
        self.registers.sp = sum;
        self.registers.set_flags(false, false, half, carry);
        self.increment_cycles(4);
    }

    pub fn ld_hl_sp_offset(&mut self, d: u8)
        requires
            old(self).wf(),
        ensures
            final(self)@ == old(self)@.ld_hl_sp_offset(d),
            final(self).wf(),
    {
        let (sum, half, carry) = self.sp_offset(d);
        self.registers.set_hl(sum);
        self.registers.set_flags(false, false, half, carry);
        self.increment_cycles(3);
    }

    // Rotations and shifts: each sets the flags (Z from the result) and
    // returns the result; the caller stores it.

    pub fn rlc(&mut self, value: u8) -> (r: u8)
        requires
            old(self).wf(),
        ensures
            r == rot_spec(0, value, cf(old(self).registers.f)).0,
            final(self)@ == old(self)@.with_f(
                flags_of(r == 0, false, false, rot_spec(0, value, cf(old(self).registers.f)).1),
            ),
            final(self).wf(),
    {
        let result: u8 = ((value as u16 * 2 + value as u16 / 128) % 256) as u8;
        self.registers.set_flags(result == 0, false, false, value >= 128);
        result
    }

    pub fn rrc(&mut self, value: u8) -> (r: u8)
        requires
            old(self).wf(),
        ensures
            r == rot_spec(1, value, cf(old(self).registers.f)).0,
            final(self)@ == old(self)@.with_f(
                flags_of(r == 0, false, false, rot_spec(1, value, cf(old(self).registers.f)).1),
            ),
            final(self).wf(),
    {
        let result: u8 = value / 2 + (value % 2) * 128;
        self.registers.set_flags(result == 0, false, false, value % 2 == 1);
        result
    }

    pub fn rl(&mut self, value: u8) -> (r: u8)
        requires
            old(self).wf(),
        ensures
            r == rot_spec(2, value, cf(old(self).registers.f)).0,
            final(self)@ == old(self)@.with_f(
                flags_of(r == 0, false, false, rot_spec(2, value, cf(old(self).registers.f)).1),
            ),
            final(self).wf(),
    {
        let carry: u16 = if self.registers.get_carry_flag() {
            1
        } else {
            0
        };
        let result: u8 = ((value as u16 * 2 + carry) % 256) as u8;
        self.registers.set_flags(result == 0, false, false, value >= 128);
        result
    }

    pub fn rr(&mut self, value: u8) -> (r: u8)
        requires
            old(self).wf(),
        ensures
            r == rot_spec(3, value, cf(old(self).registers.f)).0,
            final(self)@ == old(self)@.with_f(
                flags_of(r == 0, false, false, rot_spec(3, value, cf(old(self).registers.f)).1),
            ),
            final(self).wf(),
    {
        let carry: u8 = if self.registers.get_carry_flag() {
            1
        } else {
            0
        };
        let result: u8 = value / 2 + carry * 128;
        self.registers.set_flags(result == 0, false, false, value % 2 == 1);
        result
    }

    pub fn sla(&mut self, value: u8) -> (r: u8)
        requires
            old(self).wf(),
        ensures
            r == rot_spec(4, value, cf(old(self).registers.f)).0,
            final(self)@ == old(self)@.with_f(
                flags_of(r == 0, false, false, rot_spec(4, value, cf(old(self).registers.f)).1),
            ),
            final(self).wf(),
    {
        let result: u8 = ((value as u16 * 2) % 256) as u8;
        self.registers.set_flags(result == 0, false, false, value >= 128);
        result
    }

    pub fn sra(&mut self, value: u8) -> (r: u8)
        requires
            old(self).wf(),
        ensures
            r == rot_spec(5, value, cf(old(self).registers.f)).0,
            final(self)@ == old(self)@.with_f(
                flags_of(r == 0, false, false, rot_spec(5, value, cf(old(self).registers.f)).1),
            ),
            final(self).wf(),
    {
        let result: u8 = value / 2 + (value / 128) * 128;
        self.registers.set_flags(result == 0, false, false, value % 2 == 1);
        result
    }

    pub fn swap(&mut self, value: u8) -> (r: u8)
        requires
            old(self).wf(),
        ensures
            r == rot_spec(6, value, cf(old(self).registers.f)).0,
            final(self)@ == old(self)@.with_f(
                flags_of(r == 0, false, false, rot_spec(6, value, cf(old(self).registers.f)).1),
            ),
            final(self).wf(),
    {
        let result: u8 = (value % 16) * 16 + value / 16;
        self.registers.set_flags(result == 0, false, false, false);
        result
    }

    pub fn srl(&mut self, value: u8) -> (r: u8)
        requires
            old(self).wf(),
        ensures
            r == rot_spec(7, value, cf(old(self).registers.f)).0,
            final(self)@ == old(self)@.with_f(
                flags_of(r == 0, false, false, rot_spec(7, value, cf(old(self).registers.f)).1),
            ),
            final(self).wf(),
    {
        let result: u8 = value / 2;
        self.registers.set_flags(result == 0, false, false, value % 2 == 1);
        result
    }

    pub fn rlca(&mut self)
        requires
            old(self).wf(),
        ensures
            final(self)@ == old(self)@.rotate_a(0),
            final(self).wf(),
    {
        let a = self.registers.a;
        let r = self.rlc(a);
        let carry = self.registers.get_carry_flag();
        proof {
            lemma_flags_of(r == 0, false, false, rot_spec(0, a, cf(old(self).registers.f)).1);
        }
        self.registers.a = r;
        self.registers.set_flags(false, false, false, carry);
        self.increment_cycles(1);
    }

    pub fn rrca(&mut self)
        requires
            old(self).wf(),
        ensures
            final(self)@ == old(self)@.rotate_a(1),
            final(self).wf(),
    {
        let a = self.registers.a;
        let r = self.rrc(a);
        let carry = self.registers.get_carry_flag();
        proof {
            lemma_flags_of(r == 0, false, false, rot_spec(1, a, cf(old(self).registers.f)).1);
        }
        self.registers.a = r;
        self.registers.set_flags(false, false, false, carry);
        self.increment_cycles(1);
    }

    pub fn rla(&mut self)
        requires
            old(self).wf(),
        ensures
            final(self)@ == old(self)@.rotate_a(2),
            final(self).wf(),
    {
        let a = self.registers.a;
        let r = self.rl(a);
        let carry = self.registers.get_carry_flag();
        proof {
            lemma_flags_of(r == 0, false, false, rot_spec(2, a, cf(old(self).registers.f)).1);
        }
        self.registers.a = r;
        self.registers.set_flags(false, false, false, carry);
        self.increment_cycles(1);
    }

    pub fn rra(&mut self)
        requires
            old(self).wf(),
        ensures
            final(self)@ == old(self)@.rotate_a(3),
            final(self).wf(),
    {
        let a = self.registers.a;
        let r = self.rr(a);
        let carry = self.registers.get_carry_flag();
        proof {
            lemma_flags_of(r == 0, false, false, rot_spec(3, a, cf(old(self).registers.f)).1);
        }
        self.registers.a = r;
        self.registers.set_flags(false, false, false, carry);
        self.increment_cycles(1);
    }

    /// Decimal adjustment of A after a BCD addition (N = 0) or subtraction (N = 1).
    pub fn daa(&mut self)
        requires
            old(self).wf(),
        ensures
            final(self)@ == old(self)@.daa(),
            final(self).wf(),
    {
        let a = self.registers.a;
        let n = self.registers.get_subtraction_flag();
        let h = self.registers.get_half_carry_flag();
        let c = self.registers.get_carry_flag();
        let mut adjust: u8 = 0;
        if c || (!n && a > 0x99) {
            adjust = adjust + 0x60;
        }
        if h || (!n && a % 16 > 9) {
            adjust = adjust + 6;
        }
        let result: u8 = if n {
            ((a as u16 + 256 - adjust as u16) % 256) as u8
        } else {
            ((a as u16 + adjust as u16) % 256) as u8
        };
        self.registers.a = result;
        self.registers.set_flags(result == 0, n, false, adjust >= 0x60);
        self.increment_cycles(1);
    }

    pub fn cpl(&mut self)
        requires
            old(self).wf(),
        ensures
            final(self)@ == old(self)@.cpl(),
            final(self).wf(),
    {
        let a = self.registers.a;
        let z = self.registers.get_zero_flag();
        let c = self.registers.get_carry_flag();
        self.registers.a = 255 - a;
        self.registers.set_flags(z, true, true, c);
        self.increment_cycles(1);
    }

    pub fn scf(&mut self)
        requires
            old(self).wf(),
        ensures
            final(self)@ == old(self)@.scf(),
            final(self).wf(),
    {
        let z = self.registers.get_zero_flag();
        self.registers.set_flags(z, false, false, true);
        self.increment_cycles(1);
    }

    pub fn ccf(&mut self)
        requires
            old(self).wf(),
        ensures
            final(self)@ == old(self)@.ccf(),
            final(self).wf(),
    {
        let z = self.registers.get_zero_flag();
        let c = self.registers.get_carry_flag();
        self.registers.set_flags(z, false, false, !c);
        self.increment_cycles(1);
    }

    pub fn ret_conditional(&mut self, condition: u8)
        requires
            old(self).wf(),
            condition < 4,
        ensures
            final(self)@ == old(self)@.ret_conditional(condition),
            final(self).wf(),
    {
        if self.check_condition(condition) {
            self.ret();
            self.increment_cycles(1);
        } else {
            self.increment_cycles(2);
        }
    }

    pub fn ret(&mut self)
        requires
            old(self).wf(),
        ensures
            final(self)@ == old(self)@.ret(),
            final(self).wf(),
    {
        let sp = self.registers.sp;
        let value = self.bus.read_word(sp);
        self.registers.sp = ((sp as u32 + 2) % 65536) as u16;
        self.registers.pc = value;
        self.increment_cycles(4);
    }

    pub fn reti(&mut self)
        requires
            old(self).wf(),
        ensures
            final(self)@ == old(self)@.reti(),
            final(self).wf(),
    {
        self.ret();
        self.ime = true;
    }

    /// POP into pair `i` of table rp2; F's low nibble stays zero.
    pub fn pop(&mut self, i: u8)
        requires
            old(self).wf(),
            i < 4,
        ensures
            final(self)@ == old(self)@.pop(i),
            final(self).wf(),
    {
        let sp = self.registers.sp;
        let value = self.bus.read_word(sp);
        self.registers.sp = ((sp as u32 + 2) % 65536) as u16;
        self.set_register_from_table_rp2(i, value);
        self.increment_cycles(3);
    }

    pub fn push(&mut self, value: u16)
        requires
            old(self).wf(),
        ensures
            final(self)@ == old(self)@.push_value(value),
            final(self).wf(),
    {
        self.stack_push(value);
        self.increment_cycles(4);
    }

    pub fn load_to_memory(&mut self, addr: u16, value: u8)
        requires
            old(self).wf(),
        ensures
            final(self)@ == old(self)@.load_to_memory(addr, value),
            final(self).wf(),
    {
        self.bus.write_byte(addr, value);
        self.increment_cycles(4);
    }

    pub fn di(&mut self)
        requires
            old(self).wf(),
        ensures
            final(self)@ == old(self)@.di(),
            final(self).wf(),
    {
        self.ime = false;
        self.ime_pending = false;
        self.increment_cycles(1);
    }

    pub fn ei(&mut self)
        requires
            old(self).wf(),
        ensures
            final(self)@ == old(self)@.ei(),
            final(self).wf(),
    {
        self.ime_pending = true;
        self.increment_cycles(1);
    }

    /// LD (BC)/(DE)/(HL+)/(HL-),A, or LD A,(...) when `load_a`.
    pub fn ld_indirect(&mut self, p: u8, load_a: bool)
        requires
            old(self).wf(),
            p < 4,
        ensures
            final(self)@ == old(self)@.ld_indirect(p, load_a),
            final(self).wf(),
    {
        let pointer = match p {
            0 => self.registers.get_bc(),
            1 => self.registers.get_de(),
            _ => self.registers.get_hl(),
        };
        if p == 2 {
            self.registers.set_hl(((pointer as u32 + 1) % 65536) as u16);
        } else if p == 3 {
            self.registers.set_hl(((pointer as u32 + 0xFFFF) % 65536) as u16);
        }
        if load_a {
            let value = self.bus.read_byte(pointer);
            self.registers.a = value;
        } else {
            let a = self.registers.a;
            self.bus.write_byte(pointer, a);
        }
        self.increment_cycles(2);
    }

    /// Fetches and executes a CB-prefixed instruction.
    pub fn handle_cb_prefix(&mut self)
        requires
            old(self).wf(),
        ensures
            final(self)@ == old(self)@.skip(1).cb(old(self)@.imm8()),
            final(self).wf(),
    {
        let opcode = self.next_byte();
        let x = opcode / 64;
        let y = (opcode / 8) % 8;
        let z = opcode % 8;
        let value = self.get_register_from_table_r(z);
        let slow: u64 = if z == 6 {
            4
        } else {
            2
        };
        if x == 0 {
            let result = match y {
                0 => self.rlc(value),
                1 => self.rrc(value),
                2 => self.rl(value),
                3 => self.rr(value),
                4 => self.sla(value),
                5 => self.sra(value),
                6 => self.swap(value),
                _ => self.srl(value),
            };
            self.set_register_from_table_r(z, result);
            self.increment_cycles(slow);
        } else if x == 1 {
            // BIT y, r[z]: the operand is not written back.
            let set = test_bit(value, y);
            let carry = self.registers.get_carry_flag();
            self.registers.set_flags(!set, false, true, carry);
            self.increment_cycles(
                if z == 6 {
                    3
                } else {
                    2
                },
            );
        } else if x == 2 {
            self.set_register_from_table_r(z, value & !(1u8 << y));
            self.increment_cycles(slow);
        } else {
            self.set_register_from_table_r(z, value | (1u8 << y));
            self.increment_cycles(slow);
        }
    }

    /// Accumulator operation `op` on `value`.
    fn alu_op(&mut self, op: u8, value: u8)
        requires
            old(self).wf(),
            op < 8,
        ensures
            final(self)@ == old(self)@.alu(op, value),
            final(self).wf(),
    {
        match op {
            0 => self.add(value),
            1 => self.adc(value),
            2 => self.sub(value),
            3 => self.sbc(value),
            4 => self.and(value),
            5 => self.xor(value),
            6 => self.or(value),
            _ => self.cp(value),
        }
    }

    fn execute_block0(&mut self, y: u8, z: u8)
        requires
            old(self).wf(),
            y < 8,
            z < 8,
        ensures
            final(self)@ == old(self)@.execute_block0(y, z),
            final(self).wf(),
    {
        let p = y / 2;
        let q = y % 2;
        if z == 0 {
            if y == 0 {
                self.nop();
            } else if y == 1 {
                // LD (nn),SP
                let nn = self.next_word();
                let sp = self.registers.sp;
                self.bus.write_word(nn, sp);
                self.increment_cycles(5);
            } else if y == 2 {
                self.stop();
            } else if y == 3 {
                let d = self.next_byte();
                self.jr(d);
            } else {
                let d = self.next_byte();
                self.jr_conditional(d, y - 4);
            }
        } else if z == 1 {
            if q == 0 {
                let nn = self.next_word();
                self.set_register_from_table_rp(p, nn);
                self.increment_cycles(3);
            } else {
                let value = self.get_register_from_table_rp(p);
                self.add_hl(value);
            }
        } else if z == 2 {
            self.ld_indirect(p, q == 1);
        } else if z == 3 {
            if q == 0 {
                self.inc_16(p);
            } else {
                self.dec_16(p);
            }
        } else if z == 4 {
            self.inc(y);
        } else if z == 5 {
            self.dec(y);
        } else if z == 6 {
            let n = self.next_byte();
            self.set_register_from_table_r(y, n);
            self.increment_cycles(
                if y == 6 {
                    3
                } else {
                    2
                },
            );
        } else {
            match y {
                0 => self.rlca(),
                1 => self.rrca(),
                2 => self.rla(),
                3 => self.rra(),
                4 => self.daa(),
                5 => self.cpl(),
                6 => self.scf(),
                _ => self.ccf(),
            }
        }
    }

    fn execute_block12(&mut self, x: u8, y: u8, z: u8)
        requires
            old(self).wf(),
            x == 1 || x == 2,
            y < 8,
            z < 8,
        ensures
            final(self)@ == old(self)@.execute_block12(x, y, z),
            final(self).wf(),
    {
        if x == 1 {
            if y == 6 && z == 6 {
                self.halt();
            } else {
                let value = self.get_register_from_table_r(z);
                self.set_register_from_table_r(y, value);
                self.increment_cycles(
                    if y == 6 || z == 6 {
                        2
                    } else {
                        1
                    },
                );
            }
        } else {
            let value = self.get_register_from_table_r(z);
            self.alu_op(y, value);
            self.increment_cycles(
                if z == 6 {
                    1
                } else {
                    0
                },
            );
        }
    }

    fn execute_block3(&mut self, y: u8, z: u8)
        requires
            old(self).wf(),
            y < 8,
            z < 8,
        ensures
            final(self)@ == old(self)@.execute_block3(y, z),
            final(self).wf(),
    {
        let p = y / 2;
        let q = y % 2;
        if z == 0 {
            if y < 4 {
                self.ret_conditional(y);
            } else if y == 4 {
                // LDH (n),A
                let n = self.next_byte();
                let a = self.registers.a;
                self.bus.write_byte(0xFF00 + n as u16, a);
                self.increment_cycles(3);
            } else if y == 5 {
                let d = self.next_byte();
                self.add_sp(d);
            } else if y == 6 {
                // LDH A,(n)
                let n = self.next_byte();
                let value = self.bus.read_byte(0xFF00 + n as u16);
                self.registers.a = value;
                self.increment_cycles(3);
            } else {
                let d = self.next_byte();
                self.ld_hl_sp_offset(d);
            }
        } else if z == 1 {
            if q == 0 {
                self.pop(p);
            } else if p == 0 {
                self.ret();
            } else if p == 1 {
                self.reti();
            } else if p == 2 {
                // JP HL
                self.registers.pc = self.registers.get_hl();
                self.increment_cycles(1);
            } else {
                // LD SP,HL
                self.registers.sp = self.registers.get_hl();
                self.increment_cycles(2);
            }
        } else if z == 2 {
            if y < 4 {
                let nn = self.next_word();
                self.jp_cc(nn, y);
            } else if y == 4 {
                // LD (0xFF00+C),A
                let a = self.registers.a;
                self.bus.write_byte(0xFF00 + self.registers.c as u16, a);
                self.increment_cycles(2);
            } else if y == 5 {
                let nn = self.next_word();
                let a = self.registers.a;
                self.load_to_memory(nn, a);
            } else if y == 6 {
                // LD A,(0xFF00+C)
                let value = self.bus.read_byte(0xFF00 + self.registers.c as u16);
                self.registers.a = value;
                self.increment_cycles(2);
            } else {
                // LD A,(nn)
                let nn = self.next_word();
                let value = self.bus.read_byte(nn);
                self.registers.a = value;
                self.increment_cycles(4);
            }
        } else if z == 3 {
            if y == 0 {
                let nn = self.next_word();
                self.jp(nn);
            } else if y == 1 {
                self.handle_cb_prefix();
            } else if y == 6 {
                self.di();
            } else if y == 7 {
                self.ei();
            } else {
                // Unused opcode: treated as NOP.
                self.nop();
            }
        } else if z == 4 {
            if y < 4 {
                let nn = self.next_word();
                self.call_conditional(nn, y);
            } else {
                self.nop();
            }
        } else if z == 5 {
            if q == 0 {
                let value = self.get_register_from_table_rp2(p);
                self.push(value);
            } else if p == 0 {
                let nn = self.next_word();
                self.call(nn);
            } else {
                self.nop();
            }
        } else if z == 6 {
            let n = self.next_byte();
            self.alu_op(y, n);
            self.increment_cycles(1);
        } else {
            self.rst(y as u16 * 8);
        }
    }

    /// Executes `opcode`, whose byte has been fetched. Every instruction
    /// leaves F's low nibble at zero.
    pub fn handle_instruction(&mut self, opcode: u8)
        requires
            old(self).wf(),
        ensures
            final(self)@ == old(self)@.execute(opcode),
            final(self).wf(),
            final(self).registers.f & 0x0Fu8 == 0,
    {
        let x = opcode / 64;
        let y = (opcode / 8) % 8;
        let z = opcode % 8;
        if x == 0 {
            self.execute_block0(y, z);
        } else if x == 3 {
            self.execute_block3(y, z);
        } else {
            self.execute_block12(x, y, z);
        }
    }

    /// Services interrupt `interrupt`: IME off, IF bit cleared, PC pushed,
    /// PC set to the vector.
    fn service_interrupt(&mut self, interrupt: InterruptType)
        requires
            old(self).wf(),
        ensures
            final(self)@ == old(self)@.service(interrupt),
            final(self).wf(),
    {
        self.ime = false;
        let flags = self.bus.read_byte(INTERRUPT_FLAG_ADDR);
        acknowledge_interrupt(&mut self.bus, flags, interrupt);
        let pc = self.registers.pc;
        self.stack_push(pc);
        self.registers.pc = get_interrupt_address(interrupt).address();
        self.increment_cycles(5);
    }

    /// Runs one step (an interrupt dispatch, one instruction, or one
    /// M-cycle of HALT) and returns the M-cycles it took.
    pub fn step(&mut self) -> (delta: u64)
        requires
            old(self).wf(),
        ensures
            final(self)@ == old(self)@.step(),
            final(self).wf(),
            final(self).registers.f & 0x0Fu8 == 0,
            final(self).cycles == add_cycles(old(self).cycles, delta),
            delta == sub_cycles(final(self).cycles, old(self).cycles),
    {
        let before = self.cycles;
        let enabled = self.bus.read_byte(INTERRUPT_ENABLE_ADDR);
        let requested = self.bus.read_byte(INTERRUPT_FLAG_ADDR);
        let pending = enabled & requested & 0x1F;
        if self.halted && pending == 0 {
            self.increment_cycles(1);
        } else {
            self.halted = false;
            if self.ime && pending != 0 {
                match get_requested_interrupt(pending) {
                    Some(interrupt) => self.service_interrupt(interrupt),
                    None => {
                        proof {
                            assert(pending & 0x1Fu8 == pending) by (bit_vector)
                                requires
                                    pending == enabled & requested & 0x1Fu8,
                            ;
                            assert(pending == 0) by (bit_vector)
                                requires
                                    pending & 1u8 == 0,
                                    pending & 2u8 == 0,
                                    pending & 4u8 == 0,
                                    pending & 8u8 == 0,
                                    pending & 16u8 == 0,
                                    pending & 0x1Fu8 == pending,
                            ;
                        }
                    },
                }
            } else {
                let enable_after = self.ime_pending;
                self.ime_pending = false;
                let opcode = self.next_byte();
                self.handle_instruction(opcode);
                if enable_after && opcode != 0xF3 {
                    self.ime = true;
                }
            }
        }
        self.cycles.wrapping_sub(before)
    }
}

} // verus!
