//! Predicates on IEEE-754 single-precision bit patterns.
//!
//! Scalar material fields are carried through this crate as the raw 32-bit
//! patterns of the host's single-precision values. The encoder never does
//! arithmetic on them; the only questions it asks are answered directly by
//! the bit layout: one sign bit, an eight-bit exponent (bits 23 to 30), and a
//! 23-bit mantissa. A value is infinite or not-a-number exactly when its
//! exponent field is all ones.

use vstd::prelude::*;

verus! {

/// Mask of the eight exponent bits, once shifted down to the low byte.
pub const EXPONENT_MASK: u32 = 0xFF;

/// How far the exponent field sits above bit zero.
pub const EXPONENT_SHIFT: u32 = 23;

/// Mask of the 23 mantissa bits.
pub const MANTISSA_MASK: u32 = 0x7F_FFFF;

/// Mask of the sign bit.
pub const SIGN_MASK: u32 = 0x8000_0000;

/// Bit pattern of the single-precision value one.
pub const ONE_BITS: u32 = 0x3F80_0000;

/// Bit pattern of the single-precision value one half.
pub const ONE_HALF_BITS: u32 = 0x3F00_0000;

/// Bit pattern of the single-precision value zero.
pub const ZERO_BITS: u32 = 0;

/// Bit pattern of single-precision positive infinity.
pub const POSITIVE_INFINITY_BITS: u32 = 0x7F80_0000;

/// A single-precision value is finite when its exponent field is not all
/// ones; all-ones exponents encode the infinities and the not-a-number
/// values.
pub open spec fn spec_is_finite(bits: u32) -> bool {
    (bits >> EXPONENT_SHIFT) & EXPONENT_MASK != EXPONENT_MASK
}

/// A single-precision value is not-a-number when its exponent field is all
/// ones and its mantissa is nonzero.
pub open spec fn spec_is_nan(bits: u32) -> bool {
    (bits >> EXPONENT_SHIFT) & EXPONENT_MASK == EXPONENT_MASK && bits & MANTISSA_MASK != 0
}

/// The single-precision value is strictly below one. Every negative value
/// (sign bit set) is below one, negative zero and negative infinity
/// included; a non-negative value is below one exactly when its bit pattern
/// is below the pattern of one, because the ordering of non-negative
/// single-precision values agrees with the ordering of their bit patterns.
/// A not-a-number value compares below nothing.
pub open spec fn spec_is_below_one(bits: u32) -> bool {
    !spec_is_nan(bits) && (bits & SIGN_MASK != 0 || bits < ONE_BITS)
}

/// Whether the bit pattern encodes a finite value.
pub fn is_finite(bits: u32) -> (r: bool)
    ensures
        r == spec_is_finite(bits),
{
    (bits >> EXPONENT_SHIFT) & EXPONENT_MASK != EXPONENT_MASK
}

/// Whether the bit pattern encodes a not-a-number value.
pub fn is_nan(bits: u32) -> (r: bool)
    ensures
        r == spec_is_nan(bits),
{
    (bits >> EXPONENT_SHIFT) & EXPONENT_MASK == EXPONENT_MASK && bits & MANTISSA_MASK != 0
}

/// Whether the bit pattern encodes a value strictly below one.
pub fn is_below_one(bits: u32) -> (r: bool)
    ensures
        r == spec_is_below_one(bits),
{
    !is_nan(bits) && (bits & SIGN_MASK != 0 || bits < ONE_BITS)
}

/// Positive infinity is not finite, and no not-a-number pattern is finite:
/// the two classes of attenuation distance that must leave attenuation
/// disabled never count as finite.
pub proof fn lemma_non_finite_patterns(bits: u32)
    ensures
        !spec_is_finite(POSITIVE_INFINITY_BITS),
        spec_is_nan(bits) ==> !spec_is_finite(bits),
{
    assert((0x7F80_0000u32 >> 23) & 0xFF == 0xFF) by (bit_vector);
}

} // verus!
