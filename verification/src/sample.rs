//! Load-average samples. A sample is an IEEE-754 binary64 number, held as its
//! bit pattern: one sign bit, eleven exponent bits, fifty-two fraction bits.

use vstd::prelude::*;

verus! {

/// The bit pattern of positive zero.
pub const ZERO_BITS: u64 = 0;

/// The bit pattern of negative zero: the sign bit and nothing else.
pub const NEGATIVE_ZERO_BITS: u64 = 0x8000_0000_0000_0000;

/// The bit pattern of positive infinity: the exponent all ones, the rest clear.
pub const INFINITY_BITS: u64 = 0x7FF0_0000_0000_0000;

/// The sign bit of a sample.
pub open spec fn sign_bit(bits: u64) -> u64 {
    bits >> 63
}

/// The eleven exponent bits of a sample.
pub open spec fn exponent_bits(bits: u64) -> u64 {
    (bits >> 52) & 0x7FF
}

/// The sample without its sign.
pub open spec fn magnitude_bits(bits: u64) -> u64 {
    bits & 0x7FFF_FFFF_FFFF_FFFF
}

/// A sample is a finite number unless its exponent is all ones, which encodes
/// the infinities and the NaNs.
pub open spec fn is_finite(bits: u64) -> bool {
    exponent_bits(bits) != 0x7FF
}

/// A sample is a finite number that is not below zero: it is finite, and its
/// sign bit is clear or it is a zero.
pub open spec fn is_finite_non_negative(bits: u64) -> bool {
    is_finite(bits) && (sign_bit(bits) == 0 || magnitude_bits(bits) == 0)
}

/// The finite non-negative samples are the bit patterns below that of
/// positive infinity, and negative zero.
pub proof fn lemma_finite_non_negative_bits(bits: u64)
    ensures
        is_finite_non_negative(bits) <==> (bits < INFINITY_BITS || bits == NEGATIVE_ZERO_BITS),
{
    assert(((bits >> 52) & 0x7FF != 0x7FF && (bits >> 63 == 0 || bits & 0x7FFF_FFFF_FFFF_FFFF == 0))
        <==> (bits < 0x7FF0_0000_0000_0000u64 || bits == 0x8000_0000_0000_0000u64))
        by (bit_vector);
}

/// Decides whether a sample is a finite number that is not below zero.
pub fn sample_is_finite_non_negative(bits: u64) -> (r: bool)
    ensures
        r == is_finite_non_negative(bits),
{
    proof {
        lemma_finite_non_negative_bits(bits);
    }
    bits < INFINITY_BITS || bits == NEGATIVE_ZERO_BITS
}

} // verus!
