//! The SM83 as a state machine: what each instruction does to registers,
//! memory, interrupt state and the cycle count.
use vstd::prelude::*;
use crate::alu::{alu_spec, inc_spec, dec_spec, add_hl_spec, sp_offset_spec, rot_spec, daa_spec};
use crate::bus::BusView;
use crate::registers::{Registers, flags_of, zf, nf, hf, cf, lemma_flags_of};
use crate::bus::stack_in_ram;
use crate::utils::{wrap16, signed8, bit_of};
use crate::interrupts::{InterruptType, highest_pending, vector_of};

verus! {

/// The cycle counter wraps at 2^64 M-cycles.
pub open spec fn add_cycles(c: u64, n: u64) -> u64 {
    if c + n > u64::MAX {
        (c + n - 0x1_0000_0000_0000_0000) as u64
    } else {
        (c + n) as u64
    }
}

/// M-cycles between two counter values, modulo 2^64.
pub open spec fn sub_cycles(later: u64, earlier: u64) -> u64 {
    if later - earlier < 0 {
        (later - earlier + 0x1_0000_0000_0000_0000) as u64
    } else {
        (later - earlier) as u64
    }
}

/// Condition `cc` of JR/JP/CALL/RET: NZ, Z, NC, C.
pub open spec fn cond(f: u8, cc: u8) -> bool {
    if cc == 0 {
        !zf(f)
    } else if cc == 1 {
        zf(f)
    } else if cc == 2 {
        !cf(f)
    } else {
        cf(f)
    }
}

/// Register pair `p` of table rp: BC, DE, HL, SP.
pub open spec fn get_rp(r: Registers, p: u8) -> u16 {
    if p == 0 {
        r.bc()
    } else if p == 1 {
        r.de()
    } else if p == 2 {
        r.hl()
    } else {
        r.sp
    }
}

pub open spec fn set_rp(r: Registers, p: u8, v: u16) -> Registers {
    if p == 0 {
        r.with_bc(v)
    } else if p == 1 {
        r.with_de(v)
    } else if p == 2 {
        r.with_hl(v)
    } else {
        Registers { sp: v, ..r }
    }
}

/// Register pair `p` of table rp2: BC, DE, HL, AF.
pub open spec fn get_rp2(r: Registers, p: u8) -> u16 {
    if p == 3 {
        r.af()
    } else {
        get_rp(r, p)
    }
}

pub open spec fn set_rp2(r: Registers, p: u8, v: u16) -> Registers {
    if p == 3 {
        r.with_af(v)
    } else {
        set_rp(r, p, v)
    }
}

/// The whole machine as the CPU sees it.
pub struct Machine {
    pub regs: Registers,
    pub bus: BusView,
    /// Interrupt master enable.
    pub ime: bool,
    /// EI was executed: IME turns on after the next instruction.
    pub ime_pending: bool,
    pub halted: bool,
    /// M-cycles spent so far.
    pub cycles: u64,
}

impl Machine {
    pub open spec fn wf(&self) -> bool {
        self.regs.wf() && self.bus.wf()
    }

    pub open spec fn tick(self, n: u64) -> Machine {
        Machine { cycles: add_cycles(self.cycles, n), ..self }
    }

    pub open spec fn with_regs(self, r: Registers) -> Machine {
        Machine { regs: r, ..self }
    }

    pub open spec fn with_a(self, a: u8) -> Machine {
        Machine { regs: Registers { a: a, ..self.regs }, ..self }
    }

    pub open spec fn with_f(self, f: u8) -> Machine {
        Machine { regs: Registers { f: f, ..self.regs }, ..self }
    }

    pub open spec fn with_pc(self, pc: u16) -> Machine {
        Machine { regs: Registers { pc: pc, ..self.regs }, ..self }
    }

    pub open spec fn with_sp(self, sp: u16) -> Machine {
        Machine { regs: Registers { sp: sp, ..self.regs }, ..self }
    }

    pub open spec fn write(self, addr: u16, v: u8) -> Machine {
        Machine { bus: self.bus.write(addr, v), ..self }
    }

    pub open spec fn write_word(self, addr: u16, v: u16) -> Machine {
        Machine { bus: self.bus.write_word(addr, v), ..self }
    }

    /// The byte at PC.
    pub open spec fn imm8(&self) -> u8 {
        self.bus.read(self.regs.pc)
    }

    /// The little-endian word at PC.
    pub open spec fn imm16(&self) -> u16 {
        self.bus.read_word(self.regs.pc)
    }

    /// PC moved past `n` bytes.
    pub open spec fn skip(self, n: int) -> Machine {
        self.with_pc(wrap16(self.regs.pc + n))
    }

    /// Operand `i` of table r: B, C, D, E, H, L, (HL), A.
    pub open spec fn get_r(&self, i: u8) -> u8 {
        if i == 0 {
            self.regs.b
        } else if i == 1 {
            self.regs.c
        } else if i == 2 {
            self.regs.d
        } else if i == 3 {
            self.regs.e
        } else if i == 4 {
            self.regs.h
        } else if i == 5 {
            self.regs.l
        } else if i == 6 {
            self.bus.read(self.regs.hl())
        } else {
            self.regs.a
        }
    }

    pub open spec fn set_r(self, i: u8, v: u8) -> Machine {
        if i == 0 {
            Machine { regs: Registers { b: v, ..self.regs }, ..self }
        } else if i == 1 {
            Machine { regs: Registers { c: v, ..self.regs }, ..self }
        } else if i == 2 {
            Machine { regs: Registers { d: v, ..self.regs }, ..self }
        } else if i == 3 {
            Machine { regs: Registers { e: v, ..self.regs }, ..self }
        } else if i == 4 {
            Machine { regs: Registers { h: v, ..self.regs }, ..self }
        } else if i == 5 {
            Machine { regs: Registers { l: v, ..self.regs }, ..self }
        } else if i == 6 {
            self.write(self.regs.hl(), v)
        } else {
            self.with_a(v)
        }
    }

    /// Pushes a word: SP -= 2, then the word is written at the new SP.
    pub open spec fn push(self, v: u16) -> Machine {
        let sp = wrap16(self.regs.sp + 0xFFFE);
        self.with_sp(sp).write_word(sp, v)
    }

    /// The word on top of the stack.
    pub open spec fn top(&self) -> u16 {
        self.bus.read_word(self.regs.sp)
    }

    pub open spec fn drop_top(self) -> Machine {
        self.with_sp(wrap16(self.regs.sp + 2))
    }

    // ---- Control flow ----

    pub open spec fn nop(self) -> Machine {
        self.tick(1)
    }

    pub open spec fn halt(self) -> Machine {
        Machine { halted: true, ..self }.tick(1)
    }

    /// STOP is two bytes long; its second byte is skipped.
    pub open spec fn stop(self) -> Machine {
        self.skip(1).tick(1)
    }

    /// JR d, with PC already past d.
    pub open spec fn jr(self, d: u8) -> Machine {
        self.with_pc(wrap16(self.regs.pc + signed8(d) + 65536)).tick(3)
    }

    pub open spec fn jr_conditional(self, d: u8, cc: u8) -> Machine {
        if cond(self.regs.f, cc) {
            self.jr(d)
        } else {
            self.tick(2)
        }
    }

    pub open spec fn jp(self, addr: u16) -> Machine {
        self.with_pc(addr).tick(4)
    }

    pub open spec fn jp_cc(self, addr: u16, cc: u8) -> Machine {
        if cond(self.regs.f, cc) {
            self.jp(addr)
        } else {
            self.tick(3)
        }
    }

    pub open spec fn call(self, addr: u16) -> Machine {
        self.push(self.regs.pc).with_pc(addr).tick(6)
    }

    pub open spec fn call_conditional(self, addr: u16, cc: u8) -> Machine {
        if cond(self.regs.f, cc) {
            self.call(addr)
        } else {
            self.tick(3)
        }
    }

    pub open spec fn rst(self, vector: u16) -> Machine {
        self.push(self.regs.pc).with_pc(vector).tick(4)
    }

    pub open spec fn ret(self) -> Machine {
        self.drop_top().with_pc(self.top()).tick(4)
    }

    pub open spec fn ret_conditional(self, cc: u8) -> Machine {
        if cond(self.regs.f, cc) {
            self.ret().tick(1)
        } else {
            self.tick(2)
        }
    }

    pub open spec fn reti(self) -> Machine {
        Machine { ime: true, ..self.ret() }
    }

    pub open spec fn di(self) -> Machine {
        Machine { ime: false, ime_pending: false, ..self }.tick(1)
    }

    pub open spec fn ei(self) -> Machine {
        Machine { ime_pending: true, ..self }.tick(1)
    }

    // ---- Arithmetic and logic ----

    /// Accumulator operation `op` with operand `v`, one M-cycle.
    pub open spec fn alu(self, op: u8, v: u8) -> Machine {
        let (a, f) = alu_spec(op, self.regs.a, v, self.regs.f);
        self.with_a(a).with_f(f).tick(1)
    }

    pub open spec fn inc(self, i: u8) -> Machine {
        let (r, f) = inc_spec(self.get_r(i), self.regs.f);
        self.set_r(i, r).with_f(f).tick(if i == 6 { 3 } else { 1 })
    }

    pub open spec fn dec(self, i: u8) -> Machine {
        let (r, f) = dec_spec(self.get_r(i), self.regs.f);
        self.set_r(i, r).with_f(f).tick(if i == 6 { 3 } else { 1 })
    }

    pub open spec fn inc_16(self, p: u8) -> Machine {
        self.with_regs(set_rp(self.regs, p, wrap16(get_rp(self.regs, p) + 1))).tick(2)
    }

    pub open spec fn dec_16(self, p: u8) -> Machine {
        self.with_regs(set_rp(self.regs, p, wrap16(get_rp(self.regs, p) + 0xFFFF))).tick(2)
    }

    pub open spec fn add_hl(self, v: u16) -> Machine {
        let (r, f) = add_hl_spec(self.regs.hl(), v, self.regs.f);
        self.with_regs(self.regs.with_hl(r)).with_f(f).tick(2)
    }

    pub open spec fn add_sp(self, d: u8) -> Machine {
        let (r, f) = sp_offset_spec(self.regs.sp, d);
        self.with_sp(r).with_f(f).tick(4)
    }

    pub open spec fn ld_hl_sp_offset(self, d: u8) -> Machine {
        let (r, f) = sp_offset_spec(self.regs.sp, d);
        self.with_regs(self.regs.with_hl(r)).with_f(f).tick(3)
    }

    /// RLCA, RRCA, RLA, RRA (selected by `op`): as the CB forms on A, but Z is 0.
    pub open spec fn rotate_a(self, op: u8) -> Machine {
        let (r, c) = rot_spec(op, self.regs.a, cf(self.regs.f));
        self.with_a(r).with_f(flags_of(false, false, false, c)).tick(1)
    }

    pub open spec fn daa(self) -> Machine {
        let (a, f) = daa_spec(self.regs.a, self.regs.f);
        self.with_a(a).with_f(f).tick(1)
    }

    pub open spec fn cpl(self) -> Machine {
        self.with_a((255 - self.regs.a) as u8).with_f(
            flags_of(zf(self.regs.f), true, true, cf(self.regs.f)),
        ).tick(1)
    }

    pub open spec fn scf(self) -> Machine {
        self.with_f(flags_of(zf(self.regs.f), false, false, true)).tick(1)
    }

    pub open spec fn ccf(self) -> Machine {
        self.with_f(flags_of(zf(self.regs.f), false, false, !cf(self.regs.f))).tick(1)
    }

    // ---- Loads and stack ----

    pub open spec fn load_to_memory(self, addr: u16, v: u8) -> Machine {
        self.write(addr, v).tick(4)
    }

    pub open spec fn pop(self, p: u8) -> Machine {
        self.drop_top().with_regs(set_rp2(self.drop_top().regs, p, self.top())).tick(3)
    }

    pub open spec fn push_value(self, v: u16) -> Machine {
        self.push(v).tick(4)
    }

    /// LD (BC)/(DE)/(HL+)/(HL-),A when `load_a` is false; LD A,(...) when true.
    pub open spec fn ld_indirect(self, p: u8, load_a: bool) -> Machine {
        let ptr = if p == 0 {
            self.regs.bc()
        } else if p == 1 {
            self.regs.de()
        } else {
            self.regs.hl()
        };
        let moved = if p == 2 {
            self.with_regs(self.regs.with_hl(wrap16(ptr + 1)))
        } else if p == 3 {
            self.with_regs(self.regs.with_hl(wrap16(ptr + 0xFFFF)))
        } else {
            self
        };
        if load_a {
            moved.with_a(self.bus.read(ptr)).tick(2)
        } else {
            moved.write(ptr, self.regs.a).tick(2)
        }
    }

    // ---- CB prefix ----

    /// The CB-prefixed instruction `op` (its byte already fetched).
    pub open spec fn cb(self, op: u8) -> Machine {
        let x = op / 64;
        let y = (op / 8) % 8;
        let z = op % 8;
        let v = self.get_r(z);
        let slow: u64 = if z == 6 {
            4
        } else {
            2
        };
        if x == 0 {
            let (r, c) = rot_spec(y, v, cf(self.regs.f));
            self.set_r(z, r).with_f(flags_of(r == 0, false, false, c)).tick(slow)
        } else if x == 1 {
            self.with_f(flags_of(!bit_of(v, y), false, true, cf(self.regs.f))).tick(
                if z == 6 {
                    3
                } else {
                    2
                },
            )
        } else if x == 2 {
            self.set_r(z, v & !(1u8 << y)).tick(slow)
        } else {
            self.set_r(z, v | (1u8 << y)).tick(slow)
        }
    }

    // ---- Decoder ----

    /// Opcodes with x = 0 (bits 7-6).
    pub open spec fn execute_block0(self, y: u8, z: u8) -> Machine {
        let p = y / 2;
        let q = y % 2;
        if z == 0 {
            if y == 0 {
                self.nop()
            } else if y == 1 {
                self.skip(2).write_word(self.imm16(), self.regs.sp).tick(5)
            } else if y == 2 {
                self.stop()
            } else if y == 3 {
                self.skip(1).jr(self.imm8())
            } else {
                self.skip(1).jr_conditional(self.imm8(), (y - 4) as u8)
            }
        } else if z == 1 {
            if q == 0 {
                let m = self.skip(2);
                m.with_regs(set_rp(m.regs, p as u8, self.imm16())).tick(3)
            } else {
                self.add_hl(get_rp(self.regs, p as u8))
            }
        } else if z == 2 {
            self.ld_indirect(p as u8, q == 1)
        } else if z == 3 {
            if q == 0 {
                self.inc_16(p as u8)
            } else {
                self.dec_16(p as u8)
            }
        } else if z == 4 {
            self.inc(y)
        } else if z == 5 {
            self.dec(y)
        } else if z == 6 {
            self.skip(1).set_r(y, self.imm8()).tick(
                if y == 6 {
                    3
                } else {
                    2
                },
            )
        } else {
            if y < 4 {
                self.rotate_a(y)
            } else if y == 4 {
                self.daa()
            } else if y == 5 {
                self.cpl()
            } else if y == 6 {
                self.scf()
            } else {
                self.ccf()
            }
        }
    }

    /// Opcodes with x = 1 (loads between registers, HALT) and x = 2
    /// (accumulator operations on a register).
    pub open spec fn execute_block12(self, x: u8, y: u8, z: u8) -> Machine {
        if x == 1 {
            if y == 6 && z == 6 {
                self.halt()
            } else {
                self.set_r(y, self.get_r(z)).tick(
                    if y == 6 || z == 6 {
                        2
                    } else {
                        1
                    },
                )
            }
        } else {
            self.alu(y, self.get_r(z)).tick(
                if z == 6 {
                    1
                } else {
                    0
                },
            )
        }
    }

    /// Opcodes with x = 3.
    pub open spec fn execute_block3(self, y: u8, z: u8) -> Machine {
        let p = (y / 2) as u8;
        let q = y % 2;
        if z == 0 {
            if y < 4 {
                self.ret_conditional(y)
            } else if y == 4 {
                self.skip(1).write((0xFF00 + self.imm8()) as u16, self.regs.a).tick(3)
            } else if y == 5 {
                self.skip(1).add_sp(self.imm8())
            } else if y == 6 {
                self.skip(1).with_a(self.bus.read((0xFF00 + self.imm8()) as u16)).tick(3)
            } else {
                self.skip(1).ld_hl_sp_offset(self.imm8())
            }
        } else if z == 1 {
            if q == 0 {
                self.pop(p)
            } else if p == 0 {
                self.ret()
            } else if p == 1 {
                self.reti()
            } else if p == 2 {
                self.with_pc(self.regs.hl()).tick(1)
            } else {
                self.with_sp(self.regs.hl()).tick(2)
            }
        } else if z == 2 {
            if y < 4 {
                self.skip(2).jp_cc(self.imm16(), y)
            } else if y == 4 {
                self.write((0xFF00 + self.regs.c) as u16, self.regs.a).tick(2)
            } else if y == 5 {
                self.skip(2).load_to_memory(self.imm16(), self.regs.a)
            } else if y == 6 {
                self.with_a(self.bus.read((0xFF00 + self.regs.c) as u16)).tick(2)
            } else {
                self.skip(2).with_a(self.bus.read(self.imm16())).tick(4)
            }
        } else if z == 3 {
            if y == 0 {
                self.skip(2).jp(self.imm16())
            } else if y == 1 {
                self.skip(1).cb(self.imm8())
            } else if y == 6 {
                self.di()
            } else if y == 7 {
                self.ei()
            } else {
                self.nop()
            }
        } else if z == 4 {
            if y < 4 {
                self.skip(2).call_conditional(self.imm16(), y)
            } else {
                self.nop()
            }
        } else if z == 5 {
            if q == 0 {
                self.push_value(get_rp2(self.regs, p))
            } else if p == 0 {
                self.skip(2).call(self.imm16())
            } else {
                self.nop()
            }
        } else if z == 6 {
            self.skip(1).alu(y, self.imm8()).tick(1)
        } else {
            self.rst((y as int * 8) as u16)
        }
    }

    /// Executes the instruction `opcode`, whose byte has been fetched (PC
    /// is past it). Unused opcodes act as NOP.
    pub open spec fn execute(self, opcode: u8) -> Machine {
        let x = opcode / 64;
        let y = (opcode / 8) % 8;
        let z = opcode % 8;
        if x == 0 {
            self.execute_block0(y, z)
        } else if x == 3 {
            self.execute_block3(y, z)
        } else {
            self.execute_block12(x, y, z)
        }
    }

    // ---- Interrupts and the step ----

    /// IE & IF, bits 0-4: the interrupts that are requested and enabled.
    pub open spec fn pending(&self) -> u8 {
        self.bus.ie & self.bus.read(0xFF0F) & 0x1Fu8
    }

    /// Servicing an interrupt: IME off, its IF bit cleared, PC pushed,
    /// PC set to its vector; five M-cycles.
    pub open spec fn service(self, i: InterruptType) -> Machine {
        let m = Machine { ime: false, ..self }.write(0xFF0F, self.bus.read(0xFF0F) & !i.mask());
        m.push(m.regs.pc).with_pc(vector_of(i)).tick(5)
    }

    /// One step: a halted CPU waits for a pending interrupt; an enabled
    /// pending interrupt is serviced; otherwise one instruction runs, after
    /// which a delayed EI takes effect (unless that instruction was DI).
    pub open spec fn step(self) -> Machine {
        if self.halted && self.pending() == 0 {
            self.tick(1)
        } else {
            let m = Machine { halted: false, ..self };
            if m.ime && m.pending() != 0 {
                m.service(highest_pending(m.pending()).unwrap())
            } else {
                let op = m.imm8();
                let after = Machine { ime_pending: false, ..m }.skip(1).execute(op);
                if m.ime_pending && op != 0xF3 {
                    Machine { ime: true, ..after }
                } else {
                    after
                }
            }
        }
    }
}

} // verus!

verus! {

/// Servicing an interrupt leaves IME off and the source's IF bit clear,
/// sets PC to the source's vector, lowers SP by 2, and leaves the old PC,
/// little-endian, at the new SP (when those two stack bytes are RAM).
pub proof fn lemma_service(m: Machine, i: InterruptType)
    requires
        m.wf(),
        stack_in_ram(m.regs.sp),
    ensures
        !m.service(i).ime,
        m.service(i).bus.read(0xFF0F) & i.mask() == 0,
        m.service(i).regs.pc == vector_of(i),
        m.service(i).regs.sp == m.regs.sp - 2,
        m.service(i).bus.read(m.service(i).regs.sp) == m.regs.pc % 256,
        m.service(i).bus.read((m.service(i).regs.sp + 1) as u16) == m.regs.pc / 256,
        m.service(i).bus.read_word(m.service(i).regs.sp) == m.regs.pc,
{
    let flags = m.bus.read(0xFF0F);
    let k = i.index();
    assert((flags & !(1u8 << k)) & (1u8 << k) == 0) by (bit_vector);
}

/// When a step finds IME set and an enabled interrupt requested, it
/// services the one of highest priority, with the effects above.
pub proof fn lemma_step_services(m: Machine)
    requires
        m.wf(),
        m.ime,
        m.pending() != 0,
        stack_in_ram(m.regs.sp),
    ensures
        highest_pending(m.pending()).is_some(),
        ({
            let i = highest_pending(m.pending()).unwrap();
            let s = m.step();
            &&& s == Machine { halted: false, ..m }.service(i)
            &&& !s.ime
            &&& s.bus.read(0xFF0F) & i.mask() == 0
            &&& s.regs.pc == vector_of(i)
            &&& s.regs.sp == m.regs.sp - 2
            &&& s.bus.read_word(s.regs.sp) == m.regs.pc
        }),
{
    let p = m.pending();
    let ie = m.bus.ie;
    let iflag = m.bus.read(0xFF0F);
    assert(p & 0x1Fu8 == p) by (bit_vector)
        requires
            p == ie & iflag & 0x1Fu8,
    ;
    if p & 1u8 == 0 && p & 2u8 == 0 && p & 4u8 == 0 && p & 8u8 == 0 && p & 16u8 == 0 {
        assert(p == 0) by (bit_vector)
            requires
                p & 1u8 == 0,
                p & 2u8 == 0,
                p & 4u8 == 0,
                p & 8u8 == 0,
                p & 16u8 == 0,
                p & 0x1Fu8 == p,
        ;
    }
    let i = highest_pending(p).unwrap();
    lemma_service(Machine { halted: false, ..m }, i);
}

/// Loading a register pair with LD rp[p],nn and reading the pair back
/// gives nn.
pub proof fn lemma_ld_rp_round_trip(m: Machine, p: u8)
    requires
        m.wf(),
        p < 4,
    ensures
        get_rp(m.execute((p * 16 + 1) as u8).regs, p) == m.imm16(),
{
    let op = (p * 16 + 1) as u8;
    assert(op / 64 == 0 && (op / 8) % 8 == 2 * p && op % 8 == 1);
    let v = m.imm16();
    assert(((v / 256) as u8) as int * 256 + ((v % 256) as u8) as int == v);
}

/// RLCA then RRCA restores A and leaves Z, N and H clear; C is bit 7 of A,
/// the bit that RRCA rotates back out.
pub proof fn lemma_rotate_round_trip(m: Machine)
    requires
        m.wf(),
    ensures
        m.execute(0x07).execute(0x0F).regs.a == m.regs.a,
        !zf(m.execute(0x07).execute(0x0F).regs.f),
        !nf(m.execute(0x07).execute(0x0F).regs.f),
        !hf(m.execute(0x07).execute(0x0F).regs.f),
        cf(m.execute(0x07).execute(0x0F).regs.f) == (m.regs.a >= 128),
{
    let a = m.regs.a;
    let m1 = m.execute(0x07);
    assert(m1 == m.rotate_a(0));
    let a1 = m1.regs.a;
    assert(a1 == (2 * a + a / 128) % 256);
    let m2 = m1.execute(0x0F);
    assert(m2 == m1.rotate_a(1));
    assert(m2.regs.a == a1 / 2 + (a1 % 2) * 128);
    lemma_flags_of(false, false, false, a1 % 2 == 1);
}

/// RLCA then RRCA restores A and leaves Z, N and H clear and C equal to
/// A's bit 0 (for values of A whose bits 0 and 7 agree).
pub proof fn lemma_rlca_rrca(m: Machine)
    requires
        m.wf(),
        m.regs.a % 2 == m.regs.a / 128,
    ensures
        m.execute(0x07).execute(0x0F).regs.a == m.regs.a,
        !zf(m.execute(0x07).execute(0x0F).regs.f),
        !nf(m.execute(0x07).execute(0x0F).regs.f),
        !hf(m.execute(0x07).execute(0x0F).regs.f),
        cf(m.execute(0x07).execute(0x0F).regs.f) == (m.regs.a % 2 == 1),
{
    lemma_rotate_round_trip(m);
}

} // verus!
