//! Numbers in IEEE 754 double precision, held by their bits.
//!
//! The library stores and compares such numbers and never calculates with
//! them, so the bits are all it needs. Bit 63 is the sign; the 63 bits below
//! it are the magnitude, which orders the numbers of one sign as the numbers
//! themselves are ordered. Magnitudes above that of infinity are no numbers.

use vstd::prelude::*;

verus! {

/// The sign bit of a double.
pub const SIGN_BIT: u64 = 0x8000_0000_0000_0000;

/// The bits of positive infinity.
pub const INFINITY_BITS: u64 = 0x7FF0_0000_0000_0000;

/// A double, by its bits. Two scalars are equal if their bits are: positive
/// and negative zero differ, and a NaN equals itself.
#[derive(Clone, Copy, Debug, PartialEq, Eq, Structural)]
pub struct Scalar {
    pub bits: u64,
}

/// A rectangle: where its origin lies, and how far it extends from there.
#[derive(Clone, Copy, Debug, PartialEq, Eq, Structural)]
pub struct Bounds {
    pub x: Scalar,
    pub y: Scalar,
    pub width: Scalar,
    pub height: Scalar,
}

/// A transform of three-dimensional space as a matrix of four rows and four
/// columns, row by row.
#[derive(Clone, Copy, Debug, PartialEq, Eq)]
pub struct Matrix {
    pub entries: [Scalar; 16],
}

impl Scalar {
    /// The bits below the sign bit.
    pub open spec fn magnitude(self) -> int {
        if self.bits >= SIGN_BIT {
            self.bits - SIGN_BIT
        } else {
            self.bits as int
        }
    }

    /// The scalar is no number.
    pub open spec fn spec_is_nan(self) -> bool {
        self.magnitude() > INFINITY_BITS
    }

    /// The scalar is zero, of either sign.
    pub open spec fn spec_is_zero(self) -> bool {
        self.magnitude() == 0
    }

    /// The scalar is a number and not below zero: its sign bit is clear, or
    /// it is negative zero.
    pub open spec fn spec_is_non_negative(self) -> bool {
        !self.spec_is_nan() && (self.bits < SIGN_BIT || self.spec_is_zero())
    }

    pub fn from_bits(bits: u64) -> (scalar: Scalar)
        ensures
            scalar.bits == bits,
    {
        Scalar { bits }
    }

    pub fn to_bits(self) -> (bits: u64)
        ensures
            bits == self.bits,
    {
        self.bits
    }

    #[verifier::when_used_as_spec(spec_is_nan)]
    pub fn is_nan(self) -> (nan: bool)
        ensures
            nan == self.spec_is_nan(),
    {
        if self.bits >= SIGN_BIT {
            self.bits - SIGN_BIT > INFINITY_BITS
        } else {
            self.bits > INFINITY_BITS
        }
    }

    #[verifier::when_used_as_spec(spec_is_non_negative)]
    pub fn is_non_negative(self) -> (non_negative: bool)
        ensures
            non_negative == self.spec_is_non_negative(),
    {
        self.bits <= INFINITY_BITS || self.bits == SIGN_BIT
    }
}

impl Bounds {
    /// Neither the width nor the height is below zero or no number.
    pub open spec fn spec_is_proper(self) -> bool {
        self.width.spec_is_non_negative() && self.height.spec_is_non_negative()
    }

    #[verifier::when_used_as_spec(spec_is_proper)]
    pub fn is_proper(self) -> (proper: bool)
        ensures
            proper == self.spec_is_proper(),
    {
        self.width.is_non_negative() && self.height.is_non_negative()
    }
}

} // verus!
