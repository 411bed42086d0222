use vstd::prelude::*;

verus! {

/// Bit `bit` of `byte`, as a boolean.
pub open spec fn bit_of(byte: u8, bit: u8) -> bool {
    (byte >> bit) & 1u8 == 1u8
}

/// Truncates a non-negative integer to a byte.
pub open spec fn wrap8(v: int) -> u8 {
    (v % 256) as u8
}

/// Truncates a non-negative integer to a 16-bit word.
pub open spec fn wrap16(v: int) -> u16 {
    (v % 65536) as u16
}

/// The two's-complement value of a byte.
pub open spec fn signed8(d: u8) -> int {
    if d < 128 {
        d as int
    } else {
        d as int - 256
    }
}

/// Returns whether bit `bit` of `byte` is set.
pub fn test_bit(byte: u8, bit: u8) -> (r: bool)
    requires
        bit < 8,
    ensures
        r == bit_of(byte, bit),
{
    (byte >> bit) & 1 == 1
}

} // verus!
