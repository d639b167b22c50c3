//! Real numbers as the engine sees them: IEEE 754 binary64 bit patterns.

use vstd::prelude::*;

verus! {

/// Bit pattern of positive zero.
pub const POSITIVE_ZERO_BITS: u64 = 0;

/// Bit pattern of negative zero.
pub const NEGATIVE_ZERO_BITS: u64 = 0x8000_0000_0000_0000;

/// A C `double`, carried through the library as its 64-bit pattern.
///
/// The library never does arithmetic on these values; it stores them, moves
/// them between records and asks whether one is a zero.  Two values are equal
/// exactly when their bit patterns are.
#[derive(Clone, Copy, Debug, PartialEq, Eq, Structural)]
pub struct Double {
    pub bits: u64,
}

impl Double {
    /// Whether the value compares equal to `0.0`: the pattern is that of
    /// positive or of negative zero.
    pub open spec fn is_zero(self) -> bool {
        self.bits == POSITIVE_ZERO_BITS || self.bits == NEGATIVE_ZERO_BITS
    }

    /// Wraps a bit pattern.
    pub fn from_bits(bits: u64) -> (d: Double)
        ensures
            d.bits == bits,
    {
        Double { bits }
    }

    /// The bit pattern.
    pub fn to_bits(self) -> (bits: u64)
        ensures
            bits == self.bits,
    {
        self.bits
    }

    /// Positive zero.
    pub fn zero() -> (d: Double)
        ensures
            d.bits == POSITIVE_ZERO_BITS,
            d.is_zero(),
    {
        Double { bits: POSITIVE_ZERO_BITS }
    }

    /// Tests whether the value compares equal to `0.0`.
    pub fn is_exact_zero(self) -> (z: bool)
        ensures
            z == self.is_zero(),
    {
        self.bits == POSITIVE_ZERO_BITS || self.bits == NEGATIVE_ZERO_BITS
    }
}

} // verus!
