//! Single-precision numbers held by their bit pattern.
//!
//! Audio samples are exchanged with callers as binary32 numbers. This module
//! carries such a number as its 32-bit pattern and gives the pattern its
//! meaning: a sign, an exponent field and a fraction field, and from those an
//! exact value. Every finite binary32 number is an integer multiple of
//! `2^-149`, so the value is stated as that integer.

use vstd::prelude::*;
use vstd::arithmetic::power2::pow2;

verus! {

/// The bits of the fraction field.
pub const FRACTION_BITS: u32 = 23;

/// The exponent field of the numbers from one up to two.
pub const EXPONENT_BIAS: u32 = 127;

/// The exponent field of the infinities and the not-a-numbers.
pub const EXPONENT_SPECIAL: u32 = 255;

/// The implicit leading one of a normal number's significand.
pub const IMPLICIT_ONE: u32 = 0x80_0000;

/// A binary32 number, held by its bit pattern.
///
/// Two samples are equal when their bit patterns are equal: this is stricter
/// than numeric equality, which does not tell the two zeros apart and holds no
/// not-a-number equal to itself.
#[derive(Clone, Copy, Debug, PartialEq, Eq, Structural)]
pub struct Sample {
    /// The pattern: sign in bit 31, exponent field in bits 30 to 23, fraction
    /// field in bits 22 to 0.
    pub bits: u32,
}

impl Sample {
    /// The eight bits of the exponent field.
    pub open spec fn exponent_field(self) -> nat {
        ((self.bits as nat) / (IMPLICIT_ONE as nat)) % 0x100
    }

    /// The twenty-three bits of the fraction field.
    pub open spec fn fraction_field(self) -> nat {
        (self.bits as nat) % (IMPLICIT_ONE as nat)
    }

    /// Whether the sign bit is set.
    pub open spec fn is_negative(self) -> bool {
        self.bits >= 0x8000_0000
    }

    /// Whether the pattern is a not-a-number.
    pub open spec fn is_nan(self) -> bool {
        self.exponent_field() == EXPONENT_SPECIAL && self.fraction_field() != 0
    }

    /// Whether the pattern is one of the two infinities.
    pub open spec fn is_infinite(self) -> bool {
        self.exponent_field() == EXPONENT_SPECIAL && self.fraction_field() == 0
    }

    /// Whether the pattern is a number: neither an infinity nor a not-a-number.
    pub open spec fn is_finite(self) -> bool {
        self.exponent_field() != EXPONENT_SPECIAL
    }

    /// The integer that the exponent scales: the fraction field, with the
    /// implicit leading one unless the number is subnormal.
    pub open spec fn significand(self) -> nat {
        if self.exponent_field() == 0 {
            self.fraction_field()
        } else {
            IMPLICIT_ONE as nat + self.fraction_field()
        }
    }

    /// The power of two by which the significand is scaled, counted from
    /// `2^-149`, the weight of a subnormal's lowest bit.
    pub open spec fn scale(self) -> nat {
        if self.exponent_field() == 0 {
            0
        } else {
            (self.exponent_field() - 1) as nat
        }
    }

    /// The absolute value, as a multiple of `2^-149`.
    ///
    /// For an infinity the same formula gives `2^277`, which is above every
    /// finite magnitude; for a not-a-number it has no meaning.
    pub open spec fn magnitude(self) -> nat {
        self.significand() * pow2(self.scale())
    }

    /// The exact value, as a multiple of `2^-149`.
    pub open spec fn value(self) -> int {
        if self.is_negative() {
            -(self.magnitude() as int)
        } else {
            self.magnitude() as int
        }
    }

    /// The sample with the given bit pattern.
    pub fn from_bits(bits: u32) -> (sample: Sample)
        ensures
            sample.bits == bits,
    {
        Sample { bits }
    }

    /// The bit pattern of the sample.
    pub fn to_bits(self) -> (bits: u32)
        ensures
            bits == self.bits,
    {
        self.bits
    }

    /// The exponent field of the sample.
    pub fn exponent(self) -> (exponent: u32)
        ensures
            exponent == self.exponent_field(),
            exponent <= EXPONENT_SPECIAL,
    {
        let bits = self.bits;
        let exponent: u32 = (bits >> FRACTION_BITS) & 0xff;
        assert(exponent == (bits / 0x80_0000) % 0x100) by (bit_vector)
            requires
                exponent == (bits >> 23) & 0xff,
        ;
        exponent
    }

    /// The fraction field of the sample.
    pub fn fraction(self) -> (fraction: u32)
        ensures
            fraction == self.fraction_field(),
            fraction < IMPLICIT_ONE,
    {
        let bits = self.bits;
        let fraction: u32 = bits & (IMPLICIT_ONE - 1);
        assert(fraction == bits % 0x80_0000) by (bit_vector)
            requires
                fraction == bits & 0x7f_ffffu32,
        ;
        fraction
    }

    /// Whether the sign bit of the sample is set.
    pub fn sign(self) -> (negative: bool)
        ensures
            negative == self.is_negative(),
    {
        self.bits >= 0x8000_0000
    }
}

} // verus!
