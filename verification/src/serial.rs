//! Day counts held in binary64.
//!
//! A date and time cell holds its serial as a binary64 number: the whole part
//! counts days, the rest is the time of day. This module reads the whole days out
//! of the number's bit pattern with integer arithmetic alone.

use vstd::prelude::*;
use vstd::arithmetic::power2::pow2;
use vstd::bits::lemma_u64_shr_is_div;

verus! {

/// The exponent field of the number one.
pub const EXPONENT_OF_ONE: u64 = 1023;

/// The smallest exponent field of a number that `u32` cannot hold.
pub const EXPONENT_PAST_U32: u64 = 1055;

/// The exponent field that infinities and NaNs share.
pub const EXPONENT_SPECIAL: u64 = 2047;

/// The sign of a bit pattern: its topmost bit.
pub open spec fn sign_of(bits: u64) -> int {
    bits as int / 0x8000_0000_0000_0000
}

/// The exponent field of a bit pattern: the eleven bits below the sign.
pub open spec fn exponent_of(bits: u64) -> int {
    (bits as int / 0x10_0000_0000_0000) % 0x800
}

/// The fraction field of a bit pattern: its low 52 bits.
pub open spec fn fraction_of(bits: u64) -> int {
    bits as int % 0x10_0000_0000_0000
}

/// The whole days in the number with the given bit pattern, kept within `u32`.
///
/// A number below one has none, and so has every negative number and every NaN.
/// A number of 2^32 or more, positive infinity with it, is cut down to the
/// largest `u32`. Any other number with exponent field `e` has the value
/// `(2^52 + fraction) * 2^(e - 1075)`, of which the whole part is kept.
pub open spec fn whole_days(bits: u64) -> int {
    let exponent = exponent_of(bits);
    let fraction = fraction_of(bits);
    if sign_of(bits) == 1 {
        0
    } else if exponent == EXPONENT_SPECIAL {
        if fraction == 0 {
            u32::MAX as int
        } else {
            0
        }
    } else if exponent < EXPONENT_OF_ONE {
        0
    } else if exponent >= EXPONENT_PAST_U32 {
        u32::MAX as int
    } else {
        (0x10_0000_0000_0000 + fraction) / (pow2((1075 - exponent) as nat) as int)
    }
}

/// The whole days of any number fit in a `u32`.
pub proof fn lemma_whole_days_fit(bits: u64)
    ensures
        0 <= whole_days(bits) <= u32::MAX,
{
    let exponent = exponent_of(bits);
    if sign_of(bits) != 1 && EXPONENT_OF_ONE <= exponent < EXPONENT_PAST_U32 {
        let significand: u64 = (0x10_0000_0000_0000 + fraction_of(bits)) as u64;
        let shift: u64 = (1075 - exponent) as u64;
        lemma_u64_shr_is_div(significand, shift);
        assert(significand < 0x20_0000_0000_0000 && 21 <= shift <= 52 ==> (significand >> shift)
            < 0x1_0000_0000) by (bit_vector);
    }
}

/// Reads the whole days out of the bit pattern of a binary64 number.
pub fn serial_of_bits(bits: u64) -> (serial: u32)
    ensures
        serial == whole_days(bits),
{
    let sign: u64 = bits >> 63;
    let exponent: u64 = (bits >> 52) & 0x7ff;
    let fraction: u64 = bits & 0xf_ffff_ffff_ffff;
    proof {
        assert(bits >> 63 == bits / 0x8000_0000_0000_0000) by (bit_vector);
        assert((bits >> 52) & 0x7ff == (bits / 0x10_0000_0000_0000) % 0x800) by (bit_vector);
        assert(bits & 0xf_ffff_ffff_ffff == bits % 0x10_0000_0000_0000) by (bit_vector);
    }
    if sign == 1 {
        return 0;
    }
    if exponent == EXPONENT_SPECIAL {
        return if fraction == 0 {
            u32::MAX
        } else {
            0
        };
    }
    if exponent < EXPONENT_OF_ONE {
        return 0;
    }
    if exponent >= EXPONENT_PAST_U32 {
        return u32::MAX;
    }
    let significand: u64 = 0x10_0000_0000_0000 + fraction;
    let shift: u64 = 1075 - exponent;
    let days: u64 = significand >> shift;
    proof {
        lemma_u64_shr_is_div(significand, shift);
        assert(significand < 0x20_0000_0000_0000 && 21 <= shift <= 52 ==> (significand >> shift)
            < 0x1_0000_0000) by (bit_vector);
    }
    days as u32
}

} // verus!
