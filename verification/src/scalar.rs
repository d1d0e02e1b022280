//! Single-precision numbers held by their IEEE 754 binary32 encoding.
//!
//! Everything this crate decides about a number (its sign, whether it is a
//! number at all, how it compares to a limit) is integer arithmetic on the
//! 32-bit encoding. Arithmetic that rounds is left to the caller.

use vstd::prelude::*;

verus! {

/// The sign bit of an encoding.
pub const SIGN_BIT: u32 = 0x8000_0000;

/// The encoding of positive infinity. A larger magnitude encodes no number.
pub const INFINITY_BITS: u32 = 0x7F80_0000;

/// The encoding of `1.0`.
pub const ONE_BITS: u32 = 0x3F80_0000;

/// The encoding of `-1.0`.
pub const NEG_ONE_BITS: u32 = 0xBF80_0000;

/// A single-precision number, stored as its binary32 encoding.
///
/// `==` on two scalars compares encodings: it tells `-0.0` from `0.0` and
/// finds a NaN equal to itself. The numeric comparison is [`Scalar::lt`].
#[derive(Clone, Copy, Debug, PartialEq, Eq, Structural)]
pub struct Scalar {
    pub bits: u32,
}

/// A point or a direction in space.
#[derive(Clone, Copy, Debug, PartialEq, Eq, Structural)]
pub struct Vector3 {
    pub x: Scalar,
    pub y: Scalar,
    pub z: Scalar,
}

impl Scalar {
    /// The encoding without its sign bit.
    pub open spec fn magnitude(self) -> int {
        if self.bits >= SIGN_BIT {
            self.bits - SIGN_BIT
        } else {
            self.bits as int
        }
    }

    /// Whether the sign bit is set.
    pub open spec fn is_negative(self) -> bool {
        self.bits >= SIGN_BIT
    }

    /// Whether the encoding stands for no number.
    pub open spec fn spec_is_nan(self) -> bool {
        self.magnitude() > INFINITY_BITS
    }

    /// Where the number stands on the number line, for an encoding that is
    /// not a NaN: numbers are ordered as their ranks are, both zeros have
    /// rank zero, and the infinities have the two outermost ranks.
    pub open spec fn rank(self) -> int {
        if self.is_negative() {
            -self.magnitude()
        } else {
            self.magnitude()
        }
    }

    /// Numeric `<`: false as soon as either side is a NaN.
    pub open spec fn spec_lt(self, other: Scalar) -> bool {
        !self.spec_is_nan() && !other.spec_is_nan() && self.rank() < other.rank()
    }

    /// The number with the opposite sign.
    pub open spec fn spec_neg(self) -> Scalar {
        if self.bits >= SIGN_BIT {
            Scalar { bits: (self.bits - SIGN_BIT) as u32 }
        } else {
            Scalar { bits: (self.bits + SIGN_BIT) as u32 }
        }
    }

    /// `self` limited to the interval from `low` to `high`: a number under
    /// `low` becomes `low`, one over `high` becomes `high`, and anything
    /// else, a NaN included, stays as it is.
    pub open spec fn spec_clamp(self, low: Scalar, high: Scalar) -> Scalar {
        if self.spec_lt(low) {
            low
        } else if high.spec_lt(self) {
            high
        } else {
            self
        }
    }

    /// `0.0`.
    pub open spec fn spec_zero() -> Scalar {
        Scalar { bits: 0 }
    }

    /// `1.0`.
    pub open spec fn spec_one() -> Scalar {
        Scalar { bits: ONE_BITS }
    }

    /// `-1.0`.
    pub open spec fn spec_neg_one() -> Scalar {
        Scalar { bits: NEG_ONE_BITS }
    }

    /// The result of subtracting one flag from another, where a flag is
    /// `1.0` when raised and `0.0` otherwise: `1.0`, `-1.0` or `0.0`.
    pub open spec fn spec_difference_of_flags(raised: bool, lowered: bool) -> Scalar {
        if raised && !lowered {
            Scalar::spec_one()
        } else if lowered && !raised {
            Scalar::spec_neg_one()
        } else {
            Scalar::spec_zero()
        }
    }

    pub fn from_bits(bits: u32) -> (r: Scalar)
        ensures
            r.bits == bits,
    {
        Scalar { bits }
    }

    pub fn to_bits(self) -> (bits: u32)
        ensures
            bits == self.bits,
    {
        self.bits
    }

    #[verifier::when_used_as_spec(spec_zero)]
    pub fn zero() -> (r: Scalar)
        ensures
            r == Scalar::spec_zero(),
    {
        Scalar { bits: 0 }
    }

    #[verifier::when_used_as_spec(spec_one)]
    pub fn one() -> (r: Scalar)
        ensures
            r == Scalar::spec_one(),
    {
        Scalar { bits: ONE_BITS }
    }

    #[verifier::when_used_as_spec(spec_neg_one)]
    pub fn neg_one() -> (r: Scalar)
        ensures
            r == Scalar::spec_neg_one(),
    {
        Scalar { bits: NEG_ONE_BITS }
    }

    #[verifier::when_used_as_spec(spec_is_nan)]
    pub fn is_nan(self) -> (r: bool)
        ensures
            r == self.spec_is_nan(),
    {
        let magnitude: u32 = if self.bits >= SIGN_BIT {
            self.bits - SIGN_BIT
        } else {
            self.bits
        };
        magnitude > INFINITY_BITS
    }

    /// The rank as a machine integer.
    fn signed_rank(self) -> (r: i64)
        ensures
            r == self.rank(),
    {
        if self.bits >= SIGN_BIT {
            -((self.bits - SIGN_BIT) as i64)
        } else {
            self.bits as i64
        }
    }

    #[verifier::when_used_as_spec(spec_lt)]
    pub fn lt(self, other: Scalar) -> (r: bool)
        ensures
            r == self.spec_lt(other),
    {
        !self.is_nan() && !other.is_nan() && self.signed_rank() < other.signed_rank()
    }

    #[verifier::when_used_as_spec(spec_neg)]
    pub fn neg(self) -> (r: Scalar)
        ensures
            r == self.spec_neg(),
            r.magnitude() == self.magnitude(),
            r.is_negative() != self.is_negative(),
    {
        if self.bits >= SIGN_BIT {
            Scalar { bits: self.bits - SIGN_BIT }
        } else {
            Scalar { bits: self.bits + SIGN_BIT }
        }
    }

    #[verifier::when_used_as_spec(spec_clamp)]
    pub fn clamp(self, low: Scalar, high: Scalar) -> (r: Scalar)
        ensures
            r == self.spec_clamp(low, high),
    {
        if self.lt(low) {
            low
        } else if high.lt(self) {
            high
        } else {
            self
        }
    }

    #[verifier::when_used_as_spec(spec_difference_of_flags)]
    pub fn difference_of_flags(raised: bool, lowered: bool) -> (r: Scalar)
        ensures
            r == Scalar::spec_difference_of_flags(raised, lowered),
    {
        if raised && !lowered {
            Scalar::one()
        } else if lowered && !raised {
            Scalar::neg_one()
        } else {
            Scalar::zero()
        }
    }

    /// Numeric `<` is a strict order: nothing is less than itself, of two
    /// scalars at most one is less than the other, what is less than a
    /// second that is less than a third is less than the third, and of two
    /// numbers one is less than the other unless they are the same number.
    pub proof fn lemma_lt_orders(self, second: Scalar, third: Scalar)
        ensures
            !self.spec_lt(self),
            !(self.spec_lt(second) && second.spec_lt(self)),
            self.spec_lt(second) && second.spec_lt(third) ==> self.spec_lt(third),
            !self.spec_is_nan() && !second.spec_is_nan() ==> self.spec_lt(second) || second.spec_lt(
                self,
            ) || self.rank() == second.rank(),
            self.rank() == second.rank() ==> self == second || self.rank() == 0,
    {
    }

    /// Changing the sign mirrors the number line: a NaN stays a NaN, the
    /// rank changes sign, and changing the sign twice gives the encoding back.
    pub proof fn lemma_neg_mirrors(self)
        ensures
            self.spec_neg().spec_is_nan() == self.spec_is_nan(),
            self.spec_neg().rank() == -self.rank(),
            self.spec_neg().spec_neg() == self,
            forall|other: Scalar|
                self.spec_lt(other) <==> (#[trigger] other.spec_neg()).spec_lt(self.spec_neg()),
    {
    }

    /// A number clamped between two numbers `low <= high` lies between them.
    pub proof fn lemma_clamp_in_range(self, low: Scalar, high: Scalar)
        requires
            !self.spec_is_nan(),
            !low.spec_is_nan(),
            !high.spec_is_nan(),
            low.rank() <= high.rank(),
        ensures
            !self.spec_clamp(low, high).spec_is_nan(),
            low.rank() <= self.spec_clamp(low, high).rank() <= high.rank(),
            low.rank() <= self.rank() <= high.rank() ==> self.spec_clamp(low, high) == self,
    {
    }
}

} // verus!
