//! Single-precision numbers, held by their bit pattern.

use vstd::prelude::*;

verus! {

/// A binary32 number of IEEE 754, held as its 32 bits: the sign in the top
/// bit, then eight bits of exponent and twenty-three of fraction.
///
/// The crate carries such numbers from the caller to the vertices and asks of
/// them only what can be read off the bits: whether one is a number at all,
/// whether it is zero, its sign, and whether two of them are the same number.
#[derive(Clone, Copy, Debug, PartialEq, Eq)]
pub struct Scalar {
    pub bits: u32,
}

/// The bit pattern of positive zero.
pub const ZERO_BITS: u32 = 0;

/// The bit pattern of one.
pub const ONE_BITS: u32 = 0x3f80_0000;

/// The lowest bit pattern with the sign set.
pub const SIGN_BIT: u32 = 0x8000_0000;

/// The bit pattern of positive infinity; every magnitude above it is not a
/// number.
pub const INFINITY_BITS: u32 = 0x7f80_0000;

impl Scalar {
    /// The bits without the sign.
    pub open spec fn magnitude(self) -> int {
        self.bits as int % (SIGN_BIT as int)
    }

    /// The sign bit is set.
    pub open spec fn sign(self) -> bool {
        self.bits >= SIGN_BIT
    }

    pub open spec fn spec_is_nan(self) -> bool {
        self.magnitude() > INFINITY_BITS as int
    }

    pub open spec fn spec_is_zero(self) -> bool {
        self.magnitude() == 0
    }

    pub open spec fn spec_is_negative(self) -> bool {
        self.sign() && !self.spec_is_nan() && !self.spec_is_zero()
    }

    pub open spec fn spec_is_positive(self) -> bool {
        !self.sign() && !self.spec_is_nan() && !self.spec_is_zero()
    }

    pub open spec fn spec_is_zero_or_more(self) -> bool {
        self.spec_is_zero() || self.spec_is_positive()
    }

    /// Equality of the numbers, not of the bits: the two zeros are one
    /// number, and what is not a number equals nothing, itself included.
    pub open spec fn spec_same_number(self, other: Scalar) -> bool {
        &&& !self.spec_is_nan()
        &&& !other.spec_is_nan()
        &&& (self.bits == other.bits || (self.spec_is_zero() && other.spec_is_zero()))
    }

    /// The number with the given bit pattern.
    pub fn from_bits(bits: u32) -> (s: Scalar)
        ensures
            s.bits == bits,
    {
        Scalar { bits }
    }

    /// Positive zero.
    pub fn zero() -> (s: Scalar)
        ensures
            s.bits == ZERO_BITS,
            s.spec_is_zero(),
    {
        Scalar { bits: ZERO_BITS }
    }

    /// One.
    pub fn one() -> (s: Scalar)
        ensures
            s.bits == ONE_BITS,
            s.spec_is_positive(),
    {
        Scalar { bits: ONE_BITS }
    }

    /// The bit pattern.
    pub fn to_bits(self) -> (bits: u32)
        ensures
            bits == self.bits,
    {
        self.bits
    }

    /// Whether the bits encode no number.
    #[verifier::when_used_as_spec(spec_is_nan)]
    pub fn is_nan(self) -> (r: bool)
        ensures
            r == self.spec_is_nan(),
    {
        self.bits % SIGN_BIT > INFINITY_BITS
    }

    /// Whether the number is zero, of either sign.
    #[verifier::when_used_as_spec(spec_is_zero)]
    pub fn is_zero(self) -> (r: bool)
        ensures
            r == self.spec_is_zero(),
    {
        self.bits % SIGN_BIT == 0
    }

    /// Whether the number lies below zero.
    #[verifier::when_used_as_spec(spec_is_negative)]
    pub fn is_negative(self) -> (r: bool)
        ensures
            r == self.spec_is_negative(),
    {
        self.bits >= SIGN_BIT && !self.is_nan() && !self.is_zero()
    }

    /// Whether the number lies above zero.
    #[verifier::when_used_as_spec(spec_is_positive)]
    pub fn is_positive(self) -> (r: bool)
        ensures
            r == self.spec_is_positive(),
    {
        self.bits < SIGN_BIT && !self.is_nan() && !self.is_zero()
    }

    /// Whether the number is zero or lies above it: a number, and not a
    /// negative one.
    #[verifier::when_used_as_spec(spec_is_zero_or_more)]
    pub fn is_zero_or_more(self) -> (r: bool)
        ensures
            r == self.spec_is_zero_or_more(),
    {
        self.is_zero() || self.is_positive()
    }

    /// Whether `self` and `other` are the same number.
    #[verifier::when_used_as_spec(spec_same_number)]
    pub fn same_number(self, other: Scalar) -> (r: bool)
        ensures
            r == self.spec_same_number(other),
    {
        !self.is_nan() && !other.is_nan() && (self.bits == other.bits || (self.is_zero()
            && other.is_zero()))
    }
}

/// A number is at most one of negative, zero, positive and not a number, and
/// it is one of them.
pub proof fn scalar_classes(s: Scalar)
    ensures
        s.spec_is_nan() || s.spec_is_zero() || s.spec_is_negative() || s.spec_is_positive(),
        !(s.spec_is_nan() && s.spec_is_zero()),
        !(s.spec_is_negative() && s.spec_is_positive()),
        s.spec_is_negative() ==> !s.spec_is_zero() && !s.spec_is_nan(),
        s.spec_is_positive() ==> !s.spec_is_zero() && !s.spec_is_nan(),
        s.spec_is_zero_or_more() == (!s.spec_is_nan() && !s.spec_is_negative()),
{
}

/// Being the same number is symmetric, and holds of a number and itself
/// exactly when it is a number.
pub proof fn same_number_laws(a: Scalar, b: Scalar)
    ensures
        a.spec_same_number(b) == b.spec_same_number(a),
        a.spec_same_number(a) == !a.spec_is_nan(),
        a.spec_same_number(b) && !a.spec_is_zero() ==> a == b,
{
}

} // verus!
