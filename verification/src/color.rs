//! An RGBA color carried as four single-precision bit patterns.
//!
//! The encoder copies color channels into the uniform buffer unchanged, so
//! holding the raw bit patterns loses nothing and keeps every comparison
//! exact. Color-space conversion, when a host wants it, happens before the
//! channels reach this crate.

use vstd::prelude::*;

use crate::float_bits::{ONE_BITS, ZERO_BITS};

verus! {

/// Four color channels, each the bit pattern of a single-precision value.
#[derive(Clone, Copy, Debug, PartialEq, Eq, Structural)]
pub struct Rgba {
    pub r_bits: u32,
    pub g_bits: u32,
    pub b_bits: u32,
    pub a_bits: u32,
}

/// Opaque white: every channel is the value one.
pub open spec fn spec_white() -> Rgba {
    Rgba { r_bits: ONE_BITS, g_bits: ONE_BITS, b_bits: ONE_BITS, a_bits: ONE_BITS }
}

/// Opaque black: zero color channels under an alpha of one.
pub open spec fn spec_black() -> Rgba {
    Rgba { r_bits: ZERO_BITS, g_bits: ZERO_BITS, b_bits: ZERO_BITS, a_bits: ONE_BITS }
}

impl Rgba {
    /// Builds a color from four channel bit patterns.
    pub fn new(r_bits: u32, g_bits: u32, b_bits: u32, a_bits: u32) -> (c: Rgba)
        ensures
            c == (Rgba { r_bits, g_bits, b_bits, a_bits }),
    {
        Rgba { r_bits, g_bits, b_bits, a_bits }
    }

    /// Opaque white.
    pub fn white() -> (c: Rgba)
        ensures
            c == spec_white(),
    {
        Rgba { r_bits: ONE_BITS, g_bits: ONE_BITS, b_bits: ONE_BITS, a_bits: ONE_BITS }
    }

    /// Opaque black.
    pub fn black() -> (c: Rgba)
        ensures
            c == spec_black(),
    {
        Rgba { r_bits: ZERO_BITS, g_bits: ZERO_BITS, b_bits: ZERO_BITS, a_bits: ONE_BITS }
    }
}

} // verus!
