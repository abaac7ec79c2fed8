//! Facts about IEEE 754 binary32 values that can be read off their bit patterns.

use vstd::prelude::*;

verus! {

/// The bit pattern of `+0.0`.
pub const ZERO: u32 = 0;

/// The bit pattern of `1.0`.
pub const ONE: u32 = 0x3f80_0000;

/// The bit pattern of the machine epsilon, `2^-23`.
pub const EPSILON: u32 = 0x3400_0000;

/// The bit pattern of positive infinity.
pub const INFINITY: u32 = 0x7f80_0000;

/// Everything but the sign bit.
pub const MAGNITUDE: u32 = 0x7fff_ffff;

/// The value is `+0.0` or `-0.0`: it compares equal to zero.
pub open spec fn is_zero(bits: u32) -> bool {
    bits & MAGNITUDE == 0
}

/// The value is not a number: it compares unequal and unordered to everything.
pub open spec fn is_nan(bits: u32) -> bool {
    bits & MAGNITUDE > INFINITY
}

/// The sign bit is set.
pub open spec fn sign_bit(bits: u32) -> bool {
    bits > MAGNITUDE
}

/// The value lies in the closed interval from `+0.0` to `1.0`.
///
/// Among patterns with a clear sign bit that are not NaN, the order of the
/// patterns as integers is the order of the values.
pub open spec fn is_unit(bits: u32) -> bool {
    bits <= ONE
}

/// `bits` limited to the unit interval: values below zero become `+0.0`,
/// values above one become `1.0`. `-0.0` and NaN become `+0.0`.
pub open spec fn clamped_unit(bits: u32) -> u32 {
    if sign_bit(bits) || is_nan(bits) {
        ZERO
    } else if bits > ONE {
        ONE
    } else {
        bits
    }
}

/// The value of a unit-interval pattern is greater than the machine epsilon.
pub open spec fn above_epsilon(bits: u32) -> bool {
    is_unit(bits) && bits > EPSILON
}

/// Whether the value compares equal to zero.
pub fn zero(bits: u32) -> (r: bool)
    ensures
        r == is_zero(bits),
{
    bits & MAGNITUDE == 0
}

/// Whether the value is not a number.
pub fn nan(bits: u32) -> (r: bool)
    ensures
        r == is_nan(bits),
{
    bits & MAGNITUDE > INFINITY
}

/// Limits a value to the unit interval.
pub fn clamp_unit(bits: u32) -> (r: u32)
    ensures
        r == clamped_unit(bits),
        is_unit(r),
{
    if bits > MAGNITUDE || nan(bits) {
        ZERO
    } else if bits > ONE {
        ONE
    } else {
        bits
    }
}

} // verus!
