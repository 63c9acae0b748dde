//! The arithmetic of the operations that define the flag register.
//!
//! Each function gives the 8-bit result and the flag, both computed from
//! the operands alone, so that the flag never depends on the result
//! having been stored.

use vstd::prelude::*;

verus! {

/// The sum of two bytes, cut to 8 bits, and whether it was cut: the carry.
pub fn add_with_carry(left: u8, right: u8) -> (sum: (u8, bool))
    ensures
        sum.0 == (left + right) % 256,
        sum.1 == (left + right > 255),
{
    (left.wrapping_add(right), left as u16 + right as u16 > 255)
}

/// The difference `left - right` of two bytes modulo 256, and whether it
/// took no borrow: whether `left` is at least `right`.
pub fn subtract_with_borrow(left: u8, right: u8) -> (difference: (u8, bool))
    ensures
        difference.0 == (left - right) % 256,
        difference.1 == (left >= right),
{
    (left.wrapping_sub(right), left >= right)
}

/// A byte shifted right by one bit, and whether the bit shifted out, its
/// lowest, was set.
pub fn shift_right(value: u8) -> (shifted: (u8, bool))
    ensures
        shifted.0 == value / 2,
        shifted.1 == (value % 2 == 1),
{
    proof {
        lemma_byte_shifts(value);
    }
    (value >> 1, value & 0x1 == 1)
}

/// A byte shifted left by one bit, and whether the bit shifted out, its
/// highest, was set.
pub fn shift_left(value: u8) -> (shifted: (u8, bool))
    ensures
        shifted.0 == (value * 2) % 256,
        shifted.1 == (value >= 128),
{
    proof {
        lemma_byte_shifts(value);
    }
    (value << 1, (value & 0x80) >> 7 == 1)
}

/// Shifts and masks of a byte as arithmetic.
proof fn lemma_byte_shifts(value: u8)
    by (bit_vector)
    ensures
        value >> 1 == value / 2,
        value & 0x1 == value % 2,
        (value & 0x80) >> 7 == value / 128,
        value << 1 == ((value as u16 * 2) % 256) as u8,
{
}

} // verus!
