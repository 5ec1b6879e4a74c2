//! Binary64 numbers held by their bit patterns.
//!
//! Verified code carries numbers around, compares them and picks the smaller or
//! the larger of two; it never rounds. A [`Scalar`] therefore keeps the sixty-four
//! bits of an IEEE-754 binary64 value, and everything stated about it is stated
//! over those bits.

use vstd::prelude::*;

verus! {

/// The bit that holds the sign of a binary64 value.
pub const SIGN_BIT: u64 = 0x8000_0000_0000_0000;

/// The bit pattern of positive infinity. A larger magnitude is not a number.
pub const INFINITY_BITS: u64 = 0x7FF0_0000_0000_0000;

/// The bit pattern of `0.0`.
pub const ZERO_BITS: u64 = 0x0000_0000_0000_0000;

/// The bit pattern of `1.0`.
pub const ONE_BITS: u64 = 0x3FF0_0000_0000_0000;

/// The bit pattern of `-1.0`.
pub const MINUS_ONE_BITS: u64 = 0xBFF0_0000_0000_0000;

/// The bit pattern of the greatest finite binary64 value.
pub const GREATEST_FINITE_BITS: u64 = 0x7FEF_FFFF_FFFF_FFFF;

/// The bit pattern of the least finite binary64 value.
pub const LEAST_FINITE_BITS: u64 = 0xFFEF_FFFF_FFFF_FFFF;

/// A binary64 number, kept as its bit pattern.
///
/// Two scalars are equal when their bits are: `0.0` and `-0.0` differ, and a
/// NaN equals itself.
#[derive(Clone, Copy, Debug, PartialEq, Eq, Structural)]
pub struct Scalar {
    pub bits: u64,
}

impl Scalar {
    /// Whether the sign bit is set.
    pub open spec fn sign(self) -> bool {
        self.bits >= SIGN_BIT
    }

    /// The bits without the sign bit.
    pub open spec fn magnitude(self) -> int {
        if self.sign() {
            self.bits - SIGN_BIT
        } else {
            self.bits as int
        }
    }

    /// Whether the bits encode no number.
    pub open spec fn nan(self) -> bool {
        self.magnitude() > INFINITY_BITS
    }

    /// An integer that orders the numbers as their values do: for `a` and `b`
    /// that are numbers, `a < b` exactly when `a.rank() < b.rank()`. Both zeros
    /// have rank 0.
    pub open spec fn rank(self) -> int {
        if self.sign() {
            -self.magnitude()
        } else {
            self.magnitude()
        }
    }

    /// `self < other` as binary64 compares: false as soon as one is a NaN.
    pub open spec fn lt(self, other: Scalar) -> bool {
        !self.nan() && !other.nan() && self.rank() < other.rank()
    }

    /// The smaller of two numbers. A NaN loses against a number; of two
    /// numbers of equal value, `self` is kept.
    pub open spec fn spec_min(self, other: Scalar) -> Scalar {
        if self.nan() {
            other
        } else if other.lt(self) {
            other
        } else {
            self
        }
    }

    /// The larger of two numbers. A NaN loses against a number; of two
    /// numbers of equal value, `self` is kept.
    pub open spec fn spec_max(self, other: Scalar) -> Scalar {
        if self.nan() {
            other
        } else if self.lt(other) {
            other
        } else {
            self
        }
    }

    /// The scalar with the given bits.
    pub fn from_bits(bits: u64) -> (r: Scalar)
        ensures
            r.bits == bits,
    {
        Scalar { bits }
    }

    /// The bits of this scalar.
    pub fn to_bits(self) -> (r: u64)
        ensures
            r == self.bits,
    {
        self.bits
    }

    /// `0.0`.
    pub fn zero() -> (r: Scalar)
        ensures
            r.bits == ZERO_BITS,
    {
        Scalar { bits: ZERO_BITS }
    }

    /// `1.0`.
    pub fn one() -> (r: Scalar)
        ensures
            r.bits == ONE_BITS,
    {
        Scalar { bits: ONE_BITS }
    }

    /// `-1.0`.
    pub fn minus_one() -> (r: Scalar)
        ensures
            r.bits == MINUS_ONE_BITS,
    {
        Scalar { bits: MINUS_ONE_BITS }
    }

    /// The greatest finite number.
    pub fn greatest_finite() -> (r: Scalar)
        ensures
            r.bits == GREATEST_FINITE_BITS,
    {
        Scalar { bits: GREATEST_FINITE_BITS }
    }

    /// The least finite number, the negative of the greatest.
    pub fn least_finite() -> (r: Scalar)
        ensures
            r.bits == LEAST_FINITE_BITS,
    {
        Scalar { bits: LEAST_FINITE_BITS }
    }

    /// Whether the bits encode no number.
    pub fn is_nan(self) -> (r: bool)
        ensures
            r == self.nan(),
    {
        let magnitude: u64 = if self.bits >= SIGN_BIT {
            self.bits - SIGN_BIT
        } else {
            self.bits
        };
        magnitude > INFINITY_BITS
    }

    /// Whether `self < other` as binary64 compares.
    pub fn less_than(self, other: Scalar) -> (r: bool)
        ensures
            r == self.lt(other),
    {
        if self.is_nan() || other.is_nan() {
            return false;
        }
        let negative: bool = self.bits >= SIGN_BIT;
        let other_negative: bool = other.bits >= SIGN_BIT;
        if negative {
            if other_negative {
                // both negative: the larger magnitude is the smaller number
                other.bits < self.bits
            } else {
                // negative against non-negative: smaller unless both are zero
                self.bits > SIGN_BIT || other.bits > 0
            }
        } else {
            if other_negative {
                false
            } else {
                self.bits < other.bits
            }
        }
    }

    /// The smaller of two numbers.
    pub fn min(self, other: Scalar) -> (r: Scalar)
        ensures
            r == self.spec_min(other),
    {
        if self.is_nan() {
            other
        } else if other.less_than(self) {
            other
        } else {
            self
        }
    }

    /// The larger of two numbers.
    pub fn max(self, other: Scalar) -> (r: Scalar)
        ensures
            r == self.spec_max(other),
    {
        if self.is_nan() {
            other
        } else if self.less_than(other) {
            other
        } else {
            self
        }
    }
}

impl Scalar {
    /// `self` bounds `other` from below: `other` is not less, and `self` is a
    /// NaN only where `other` is one.
    pub open spec fn below(self, other: Scalar) -> bool {
        !other.lt(self) && (self.nan() ==> other.nan())
    }

    /// `self` bounds `other` from above: `other` is not greater, and `self` is
    /// a NaN only where `other` is one.
    pub open spec fn above(self, other: Scalar) -> bool {
        !self.lt(other) && (self.nan() ==> other.nan())
    }
}

/// The smaller of two numbers is one of them and bounds both from below.
pub proof fn min_is_lower_bound(a: Scalar, b: Scalar)
    ensures
        a.spec_min(b) == a || a.spec_min(b) == b,
        a.spec_min(b).below(a),
        a.spec_min(b).below(b),
{
}

/// The larger of two numbers is one of them and bounds both from above.
pub proof fn max_is_upper_bound(a: Scalar, b: Scalar)
    ensures
        a.spec_max(b) == a || a.spec_max(b) == b,
        a.spec_max(b).above(a),
        a.spec_max(b).above(b),
{
}

/// A bound of a bound is a bound.
pub proof fn bounds_chain(a: Scalar, b: Scalar, c: Scalar)
    ensures
        a.below(b) && b.below(c) ==> a.below(c),
        a.above(b) && b.above(c) ==> a.above(c),
        a.below(a),
        a.above(a),
{
}

/// Among numbers, the order by value is a strict total order up to the sign of
/// zero, and a NaN is neither less nor greater than anything.
pub proof fn order_of_numbers(a: Scalar, b: Scalar, c: Scalar)
    ensures
        !a.lt(a),
        a.lt(b) ==> !b.lt(a),
        a.lt(b) && b.lt(c) ==> a.lt(c),
        !a.nan() && !b.nan() ==> a.lt(b) || b.lt(a) || a.rank() == b.rank(),
        a.nan() ==> !a.lt(b) && !b.lt(a),
{
}

} // verus!
