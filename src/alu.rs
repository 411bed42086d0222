//! The arithmetic of SM83 instructions, as functions from operands and
//! flags to results and flags.
use vstd::prelude::*;
use crate::registers::{flags_of, zf, nf, hf, cf};
use crate::utils::{wrap8, wrap16, signed8};

verus! {

pub open spec fn bit(b: bool) -> int {
    if b {
        1
    } else {
        0
    }
}

/// ADD and ADC: the new A and F.
pub open spec fn add_spec(a: u8, v: u8, carry: bool) -> (u8, u8) {
    let sum = a + v + bit(carry);
    (wrap8(sum), flags_of(wrap8(sum) == 0, false, a % 16 + v % 16 + bit(carry) > 15, sum > 255))
}

/// SUB and SBC: the new A and F.
pub open spec fn sub_spec(a: u8, v: u8, carry: bool) -> (u8, u8) {
    let diff = a - v - bit(carry);
    (
        wrap8(diff + 256),
        flags_of(wrap8(diff + 256) == 0, true, a % 16 - v % 16 - bit(carry) < 0, diff < 0),
    )
}

/// The eight accumulator operations ADD, ADC, SUB, SBC, AND, XOR, OR, CP
/// (selected by `op`): the new A and F.
pub open spec fn alu_spec(op: u8, a: u8, v: u8, f: u8) -> (u8, u8) {
    if op == 0 {
        add_spec(a, v, false)
    } else if op == 1 {
        add_spec(a, v, cf(f))
    } else if op == 2 {
        sub_spec(a, v, false)
    } else if op == 3 {
        sub_spec(a, v, cf(f))
    } else if op == 4 {
        (a & v, flags_of(a & v == 0, false, true, false))
    } else if op == 5 {
        (a ^ v, flags_of(a ^ v == 0, false, false, false))
    } else if op == 6 {
        (a | v, flags_of(a | v == 0, false, false, false))
    } else {
        (a, sub_spec(a, v, false).1)
    }
}

/// INC r: the new value and F (C kept).
pub open spec fn inc_spec(v: u8, f: u8) -> (u8, u8) {
    let r = wrap8(v + 1);
    (r, flags_of(r == 0, false, v % 16 == 15, cf(f)))
}

/// DEC r: the new value and F (C kept).
pub open spec fn dec_spec(v: u8, f: u8) -> (u8, u8) {
    let r = wrap8(v + 255);
    (r, flags_of(r == 0, true, v % 16 == 0, cf(f)))
}

/// The CB-prefixed rotate and shift operations RLC, RRC, RL, RR, SLA, SRA,
/// SWAP, SRL (selected by `op`): the result and the carry out.
pub open spec fn rot_spec(op: u8, v: u8, carry: bool) -> (u8, bool) {
    if op == 0 {
        (wrap8(v * 2 + v / 128), v >= 128)
    } else if op == 1 {
        ((v / 2 + (v % 2) * 128) as u8, v % 2 == 1)
    } else if op == 2 {
        (wrap8(v * 2 + bit(carry)), v >= 128)
    } else if op == 3 {
        ((v / 2 + bit(carry) * 128) as u8, v % 2 == 1)
    } else if op == 4 {
        (wrap8(v * 2), v >= 128)
    } else if op == 5 {
        ((v / 2 + (v / 128) * 128) as u8, v % 2 == 1)
    } else if op == 6 {
        (((v % 16) * 16 + v / 16) as u8, false)
    } else {
        ((v / 2) as u8, v % 2 == 1)
    }
}

/// DAA: decimal adjustment of A after a BCD addition or subtraction.
pub open spec fn daa_adjust(a: u8, f: u8) -> int {
    (if cf(f) || (!nf(f) && a > 0x99) {
        0x60int
    } else {
        0
    }) + (if hf(f) || (!nf(f) && a % 16 > 9) {
        6int
    } else {
        0
    })
}

pub open spec fn daa_spec(a: u8, f: u8) -> (u8, u8) {
    let adj = daa_adjust(a, f);
    let r = if nf(f) {
        wrap8(a - adj + 256)
    } else {
        wrap8(a + adj)
    };
    (r, flags_of(r == 0, nf(f), false, adj >= 0x60))
}

/// ADD HL,rr: the new HL and F (Z kept).
pub open spec fn add_hl_spec(hl: u16, v: u16, f: u8) -> (u16, u8) {
    let sum = hl + v;
    (wrap16(sum), flags_of(zf(f), false, hl % 4096 + v % 4096 > 4095, sum > 65535))
}

/// SP plus a signed byte, as ADD SP,d and LD HL,SP+d compute it: the sum and F.
pub open spec fn sp_offset_spec(sp: u16, d: u8) -> (u16, u8) {
    (
        wrap16(sp + signed8(d) + 65536),
        flags_of(false, false, sp % 16 + d % 16 > 15, sp % 256 + d > 255),
    )
}

} // verus!
