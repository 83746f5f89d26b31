//! Single-precision numbers as bit patterns.

use vstd::prelude::*;

verus! {

/// Bit pattern of positive infinity: all exponent bits set, no fraction bit.
pub const INFINITY_BITS: u32 = 0x7f80_0000;

/// A single-precision binary floating-point number, held by its IEEE 754
/// bit pattern: the sign in the top bit, eight exponent bits below it, then
/// twenty-three fraction bits.
///
/// Two scalars are equal when their bit patterns are, which is finer than
/// numeric equality: the two zeros differ, and a NaN equals itself.
#[derive(Clone, Copy, PartialEq, Eq, Structural, Debug)]
pub struct Scalar {
    pub bits: u32,
}

impl Scalar {
    /// Positive zero, the pattern with no bit set.
    pub open spec fn zero() -> Scalar {
        Scalar { bits: 0 }
    }

    /// The number compares greater than zero: the sign bit is clear, some
    /// other bit is set, and the pattern is no NaN. Positive infinity
    /// counts.
    pub open spec fn is_positive(self) -> bool {
        0 < self.bits <= INFINITY_BITS
    }

    /// The scalar with the given bit pattern.
    pub fn from_bits(bits: u32) -> (s: Scalar)
        ensures
            s.bits == bits,
    {
        Scalar { bits }
    }

    /// The bit pattern.
    pub fn to_bits(self) -> (bits: u32)
        ensures
            bits == self.bits,
    {
        self.bits
    }

    /// Positive zero.
    pub fn new_zero() -> (s: Scalar)
        ensures
            s == Scalar::zero(),
    {
        Scalar { bits: 0 }
    }

    /// Whether the number compares greater than zero.
    pub fn exceeds_zero(self) -> (b: bool)
        ensures
            b == self.is_positive(),
    {
        0 < self.bits && self.bits <= INFINITY_BITS
    }
}

} // verus!
