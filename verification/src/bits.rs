//! Small bit-manipulation helpers shared by the memory map and the CPU core.

use vstd::prelude::*;

verus! {

/// True exactly when bit `index` of `value` is set.
pub open spec fn spec_bit_u8(value: u8, index: u32) -> bool {
    (value >> index) & 1 == 1
}

/// True exactly when bit `index` of `value` is set.
pub open spec fn spec_bit_u16(value: u16, index: u32) -> bool {
    (value >> index) & 1 == 1
}

/// Reads bit `index` of an 8-bit value.
pub fn bit_u8(value: u8, index: u32) -> (r: bool)
    requires
        index < 8,
    ensures
        r == spec_bit_u8(value, index),
{
    (value >> index) & 1 == 1
}

/// Reads bit `index` of a 16-bit value.
pub fn bit_u16(value: u16, index: u32) -> (r: bool)
    requires
        index < 16,
    ensures
        r == spec_bit_u16(value, index),
{
    (value >> index) & 1 == 1
}

} // verus!
