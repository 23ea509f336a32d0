//! Sign classification of IEEE 754 bit patterns.

use vstd::prelude::*;
use crate::sign::Sign;

verus! {

/// Whether a 64-bit IEEE 754 pattern encodes a NaN:
/// exponent all ones with a non-zero significand.
pub open spec fn f64_bits_is_nan(bits: u64) -> bool {
    &&& bits & 0x7ff0_0000_0000_0000 == 0x7ff0_0000_0000_0000
    &&& bits & 0x000f_ffff_ffff_ffff != 0
}

/// Whether a 64-bit IEEE 754 pattern has its sign bit set.
pub open spec fn f64_bits_is_negative(bits: u64) -> bool {
    bits & 0x8000_0000_0000_0000 != 0
}

/// The sign of the 64-bit floating-point value with this bit pattern.
///
/// NaN has no sign; every other pattern is classified by its sign bit,
/// so the two signed zeroes and the two infinities keep their signs.
pub fn sign_of_f64_bits(bits: u64) -> (r: Option<Sign>)
    ensures
        r == (if f64_bits_is_nan(bits) {
            None::<Sign>
        } else if f64_bits_is_negative(bits) {
            Some(Sign::Negative)
        } else {
            Some(Sign::Positive)
        }),
{
    if bits & 0x7ff0_0000_0000_0000 == 0x7ff0_0000_0000_0000 && bits & 0x000f_ffff_ffff_ffff != 0 {
        None
    } else if bits & 0x8000_0000_0000_0000 != 0 {
        Some(Sign::Negative)
    } else {
        Some(Sign::Positive)
    }
}

/// Whether a 32-bit IEEE 754 pattern encodes a NaN:
/// exponent all ones with a non-zero significand.
pub open spec fn f32_bits_is_nan(bits: u32) -> bool {
    &&& bits & 0x7f80_0000 == 0x7f80_0000
    &&& bits & 0x007f_ffff != 0
}

/// Whether a 32-bit IEEE 754 pattern has its sign bit set.
pub open spec fn f32_bits_is_negative(bits: u32) -> bool {
    bits & 0x8000_0000 != 0
}

/// The sign of the 32-bit floating-point value with this bit pattern.
///
/// NaN has no sign; every other pattern is classified by its sign bit,
/// so the two signed zeroes and the two infinities keep their signs.
pub fn sign_of_f32_bits(bits: u32) -> (r: Option<Sign>)
    ensures
        r == (if f32_bits_is_nan(bits) {
            None::<Sign>
        } else if f32_bits_is_negative(bits) {
            Some(Sign::Negative)
        } else {
            Some(Sign::Positive)
        }),
{
    if bits & 0x7f80_0000 == 0x7f80_0000 && bits & 0x007f_ffff != 0 {
        None
    } else if bits & 0x8000_0000 != 0 {
        Some(Sign::Negative)
    } else {
        Some(Sign::Positive)
    }
}

} // verus!
