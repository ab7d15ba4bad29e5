//! Real quantities as IEEE 754 binary64 encodings.

use vstd::prelude::*;

verus! {

/// A quantity in IEEE 754 binary64, held as its 64-bit encoding: one sign bit,
/// eleven exponent bits and fifty-two fraction bits, from the most significant
/// bit down.
#[derive(Clone, Copy, Debug)]
pub struct Scalar {
    pub bits: u64,
}

/// The encoding of the number one.
pub const ONE: u64 = 0x3ff0_0000_0000_0000;

/// The encoding of 9.80665, the standard gravitational acceleration at the
/// surface of the Earth in metres per second squared.
pub const EARTH_GRAVITY: u64 = 0x4023_9d01_3a92_a305;

impl Scalar {
    /// The sign bit: set for negative quantities, negative zero among them.
    pub open spec fn sign_negative(self) -> bool {
        self.bits >= 0x8000_0000_0000_0000
    }

    /// The biased exponent field, below 2048.
    pub open spec fn exponent(self) -> nat {
        ((self.bits as nat) / 0x10_0000_0000_0000) % 0x800
    }

    /// The fraction field, below 2^52.
    pub open spec fn fraction(self) -> nat {
        (self.bits as nat) % 0x10_0000_0000_0000
    }

    /// Neither an infinity nor a NaN.
    pub open spec fn finite(self) -> bool {
        self.exponent() != 0x7ff
    }

    /// Positive or negative zero.
    pub open spec fn zero(self) -> bool {
        self.exponent() == 0 && self.fraction() == 0
    }

    /// The scalar with the encoding `bits`.
    pub fn from_bits(bits: u64) -> (r: Scalar)
        ensures
            r.bits == bits,
    {
        Scalar { bits }
    }

    /// The encoding of the scalar.
    pub fn to_bits(&self) -> (r: u64)
        ensures
            r == self.bits,
    {
        self.bits
    }

    /// Whether the scalar is a number: a zero, a subnormal or a normal one.
    pub fn is_finite(&self) -> (r: bool)
        ensures
            r == self.finite(),
    {
        let b: u64 = self.bits;
        assert((b & 0x7ff0_0000_0000_0000 != 0x7ff0_0000_0000_0000) == ((b / 0x10_0000_0000_0000)
            % 0x800 != 0x7ff)) by (bit_vector);
        b & 0x7ff0_0000_0000_0000 != 0x7ff0_0000_0000_0000
    }

    /// Whether the scalar equals zero, which both zeros do and no NaN does.
    pub fn is_zero(&self) -> (r: bool)
        ensures
            r == self.zero(),
    {
        let b: u64 = self.bits;
        assert((b & 0x7fff_ffff_ffff_ffff == 0) == ((b / 0x10_0000_0000_0000) % 0x800 == 0 && b
            % 0x10_0000_0000_0000 == 0)) by (bit_vector);
        b & 0x7fff_ffff_ffff_ffff == 0
    }

    /// Whether the sign bit is set, also on a zero, an infinity or a NaN.
    pub fn is_sign_negative(&self) -> (r: bool)
        ensures
            r == self.sign_negative(),
    {
        self.bits >= 0x8000_0000_0000_0000
    }
}

/// Both zeros are finite: no scalar is a zero and at the same time an infinity
/// or a NaN.
pub proof fn zero_is_finite(scalar: Scalar)
    requires
        scalar.zero(),
    ensures
        scalar.finite(),
{
}

} // verus!
