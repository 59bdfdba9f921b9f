//! Measured values.
//!
//! A measurement is an IEEE 754 binary64 number. The engine carries it as its
//! bit pattern and never does arithmetic on it; all it decides is whether a
//! value can serve as a baseline, that is, whether it is greater than zero or
//! not comparable at all.

use vstd::prelude::*;

verus! {

/// Bit pattern of positive infinity; every larger magnitude is a NaN.
pub const INFINITY_BITS: u64 = 0x7FF0_0000_0000_0000;

/// The sign bit.
pub const SIGN_BIT: u64 = 0x8000_0000_0000_0000;

/// A measured value, kept as the bit pattern of a binary64 number.
#[derive(Debug, Clone, Copy, PartialEq, Eq)]
pub struct Measurement {
    pub bits: u64,
}

impl Measurement {
    /// The sign field: 1 for a negative number (and for negative zero).
    pub open spec fn sign(self) -> nat {
        (self.bits / 0x8000_0000_0000_0000) as nat
    }

    /// The biased exponent field, 11 bits.
    pub open spec fn exponent(self) -> nat {
        ((self.bits / 0x10_0000_0000_0000) % 0x800) as nat
    }

    /// The fraction field, 52 bits.
    pub open spec fn fraction(self) -> nat {
        (self.bits % 0x10_0000_0000_0000) as nat
    }

    /// Not a number: all exponent bits set and a fraction that is not zero.
    pub open spec fn nan(self) -> bool {
        self.exponent() == 0x7FF && self.fraction() != 0
    }

    /// Positive or negative zero.
    pub open spec fn zero(self) -> bool {
        self.exponent() == 0 && self.fraction() == 0
    }

    /// What `x <= 0.0` gives for the number `x` with these bits: false for a
    /// NaN, else true for a zero and for everything with the sign bit set.
    pub open spec fn at_most_zero(self) -> bool {
        !self.nan() && (self.zero() || self.sign() == 1)
    }

    /// Makes a measurement from the bits of a binary64 number.
    pub fn from_bits(bits: u64) -> (m: Measurement)
        ensures
            m.bits == bits,
    {
        Measurement { bits }
    }

    /// The bits of the number.
    pub fn to_bits(&self) -> (bits: u64)
        ensures
            bits == self.bits,
    {
        self.bits
    }

    /// Tells whether the number is a NaN.
    pub fn is_nan(&self) -> (r: bool)
        ensures
            r == self.nan(),
    {
        let magnitude: u64 = if self.bits >= SIGN_BIT {
            self.bits - SIGN_BIT
        } else {
            self.bits
        };
        magnitude > INFINITY_BITS
    }

    /// Tells whether the number is less than or equal to zero.
    pub fn is_at_most_zero(&self) -> (r: bool)
        ensures
            r == self.at_most_zero(),
    {
        self.bits == 0 || (self.bits >= SIGN_BIT && self.bits - SIGN_BIT <= INFINITY_BITS)
    }
}

} // verus!
