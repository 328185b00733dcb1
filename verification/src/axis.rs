//! Axis values as IEEE 754 binary64 bit patterns.
//!
//! Controller axes are reported by hardware as double-precision floating
//! point numbers. The library stores each axis value as its raw 64-bit
//! pattern and compares values with the exact semantics of floating-point
//! `==`: the two zeros are equal to each other, a NaN is equal to nothing
//! (not even itself), and every other value is equal exactly to itself.
//! No epsilon or deadband is applied anywhere.

use vstd::prelude::*;

verus! {

/// The bit pattern of one axis value, as `f64::to_bits` yields it.
pub type AxisBits = u64;

/// Mask that clears the sign bit of a binary64 pattern.
pub const F64_MAGNITUDE_MASK: u64 = 0x7FFF_FFFF_FFFF_FFFF;

/// A binary64 pattern whose magnitude exceeds this value (exponent all
/// ones, significand nonzero) encodes a NaN.
pub const F64_INFINITY_BITS: u64 = 0x7FF0_0000_0000_0000;

/// The bit pattern of positive zero, the default for an unreadable axis.
pub const AXIS_ZERO: AxisBits = 0;

/// Whether the pattern encodes a NaN.
pub open spec fn is_nan_bits(a: AxisBits) -> bool {
    (a & F64_MAGNITUDE_MASK) > F64_INFINITY_BITS
}

/// Whether the pattern encodes a zero of either sign.
pub open spec fn is_zero_bits(a: AxisBits) -> bool {
    (a & F64_MAGNITUDE_MASK) == 0
}

/// Floating-point equality on bit patterns: NaN equals nothing, the two
/// zeros are equal, and every other value is equal exactly to itself
/// (every finite nonzero binary64 value has a unique bit pattern).
pub open spec fn axis_eq(a: AxisBits, b: AxisBits) -> bool {
    &&& !is_nan_bits(a)
    &&& !is_nan_bits(b)
    &&& (a == b || (is_zero_bits(a) && is_zero_bits(b)))
}

/// Compares two axis values with floating-point `==` semantics.
pub fn axis_value_eq(a: AxisBits, b: AxisBits) -> (r: bool)
    ensures
        r == axis_eq(a, b),
{
    let a_mag: u64 = a & F64_MAGNITUDE_MASK;
    let b_mag: u64 = b & F64_MAGNITUDE_MASK;
    a_mag <= F64_INFINITY_BITS && b_mag <= F64_INFINITY_BITS && (a == b || (a_mag == 0
        && b_mag == 0))
}

} // verus!
