//! Binary64 numbers held by their bit pattern.
//!
//! A [`Scalar`] is moved, stored and compared here; it is never added or
//! multiplied. Its order is the one of the numbers it encodes: a not-a-number
//! compares false with everything, and the two zeros are equal.
use vstd::prelude::*;

verus! {

/// Bit that carries the sign.
pub const SIGN_BIT: u64 = 0x8000_0000_0000_0000;

/// Bit pattern of positive infinity; every larger magnitude is not a number.
pub const INFINITY_BITS: u64 = 0x7FF0_0000_0000_0000;

/// What one step of the exponent adds to the bits: a number from the second
/// smallest exponent up is halved exactly by taking it off.
pub const EXPONENT_STEP: u64 = 0x0010_0000_0000_0000;

/// A binary64 number, by its bits. `==` on two values compares the bits.
#[derive(Clone, Copy, Debug, PartialEq, Eq, Structural)]
pub struct Scalar {
    pub bits: u64,
}

impl Scalar {
    /// The bits without the sign.
    pub open spec fn magnitude_spec(self) -> int {
        if self.bits >= SIGN_BIT {
            self.bits - SIGN_BIT
        } else {
            self.bits as int
        }
    }

    pub open spec fn is_sign_negative_spec(self) -> bool {
        self.bits >= SIGN_BIT
    }

    pub open spec fn is_nan_spec(self) -> bool {
        self.magnitude_spec() > INFINITY_BITS
    }

    /// Place of a number in the order of all numbers: grows with the value,
    /// and is 0 for both zeros. Meaningless for a not-a-number.
    pub open spec fn rank(self) -> int {
        if self.is_sign_negative_spec() {
            -self.magnitude_spec()
        } else {
            self.magnitude_spec()
        }
    }

    /// `self < other` as numbers.
    pub open spec fn lt_spec(self, other: Scalar) -> bool {
        !self.is_nan_spec() && !other.is_nan_spec() && self.rank() < other.rank()
    }

    /// `self <= other` as numbers.
    pub open spec fn le_spec(self, other: Scalar) -> bool {
        !self.is_nan_spec() && !other.is_nan_spec() && self.rank() <= other.rank()
    }

    /// `self > other` as numbers.
    pub open spec fn gt_spec(self, other: Scalar) -> bool {
        other.lt_spec(self)
    }

    /// `self >= other` as numbers.
    pub open spec fn ge_spec(self, other: Scalar) -> bool {
        other.le_spec(self)
    }

    /// `self == other` as numbers: false for a not-a-number, true for `0` and `-0`.
    pub open spec fn same_number(self, other: Scalar) -> bool {
        !self.is_nan_spec() && !other.is_nan_spec() && self.rank() == other.rank()
    }

    /// The number with its sign cleared.
    pub open spec fn abs_spec(self) -> Scalar {
        Scalar { bits: self.magnitude_spec() as u64 }
    }

    /// The number with its sign flipped.
    pub open spec fn neg_spec(self) -> Scalar {
        if self.bits >= SIGN_BIT {
            Scalar { bits: (self.bits - SIGN_BIT) as u64 }
        } else {
            Scalar { bits: (self.bits + SIGN_BIT) as u64 }
        }
    }

    /// The smaller of two numbers; the other one where one is not a number;
    /// `self` where neither is smaller.
    pub open spec fn min_spec(self, other: Scalar) -> Scalar {
        if self.is_nan_spec() {
            other
        } else if other.lt_spec(self) {
            other
        } else {
            self
        }
    }

    /// The larger of two numbers; the other one where one is not a number;
    /// `self` where neither is larger.
    pub open spec fn max_spec(self, other: Scalar) -> Scalar {
        if self.is_nan_spec() {
            other
        } else if self.lt_spec(other) {
            other
        } else {
            self
        }
    }

    /// Whether halving is exact and moves the exponent alone: so it is for
    /// every finite number whose half is not below the smallest exponent.
    pub open spec fn has_an_exact_half(self) -> bool {
        2 * EXPONENT_STEP <= self.magnitude_spec() < INFINITY_BITS
    }

    /// Half the number, where [`Scalar::has_an_exact_half`].
    pub open spec fn halved_spec(self) -> Scalar {
        Scalar { bits: (self.bits - EXPONENT_STEP) as u64 }
    }

    /// Half the number, where that is exact by the exponent alone; none else.
    pub fn halved(self) -> (half: Option<Scalar>)
        ensures
            half == if self.has_an_exact_half() {
                Some(self.halved_spec())
            } else {
                None
            },
    {
        let m = self.magnitude();
        if 2 * EXPONENT_STEP <= m && m < INFINITY_BITS {
            Some(Scalar { bits: self.bits - EXPONENT_STEP })
        } else {
            None
        }
    }

    pub fn from_bits(bits: u64) -> (r: Scalar)
        ensures
            r == (Scalar { bits }),
    {
        Scalar { bits }
    }

    pub fn to_bits(self) -> (bits: u64)
        ensures
            bits == self.bits,
    {
        self.bits
    }

    /// Positive zero.
    pub fn zero() -> (r: Scalar)
        ensures
            r == (Scalar { bits: 0 }),
    {
        Scalar { bits: 0 }
    }

    pub fn is_sign_negative(self) -> (r: bool)
        ensures
            r == self.is_sign_negative_spec(),
    {
        self.bits >= SIGN_BIT
    }

    fn magnitude(self) -> (m: u64)
        ensures
            m == self.magnitude_spec(),
    {
        if self.bits >= SIGN_BIT {
            self.bits - SIGN_BIT
        } else {
            self.bits
        }
    }

    pub fn is_nan(self) -> (r: bool)
        ensures
            r == self.is_nan_spec(),
    {
        self.magnitude() > INFINITY_BITS
    }

    pub fn lt(self, other: Scalar) -> (r: bool)
        ensures
            r == self.lt_spec(other),
    {
        if self.is_nan() || other.is_nan() {
            return false;
        }
        let a: u64 = self.magnitude();
        let b: u64 = other.magnitude();
        if self.is_sign_negative() {
            if other.is_sign_negative() {
                a > b
            } else {
                a > 0 || b > 0
            }
        } else {
            !other.is_sign_negative() && a < b
        }
    }

    pub fn le(self, other: Scalar) -> (r: bool)
        ensures
            r == self.le_spec(other),
    {
        if self.is_nan() || other.is_nan() {
            return false;
        }
        !other.lt(self)
    }

    pub fn gt(self, other: Scalar) -> (r: bool)
        ensures
            r == self.gt_spec(other),
    {
        other.lt(self)
    }

    pub fn ge(self, other: Scalar) -> (r: bool)
        ensures
            r == self.ge_spec(other),
    {
        other.le(self)
    }

    pub fn abs(self) -> (r: Scalar)
        ensures
            r == self.abs_spec(),
    {
        Scalar { bits: self.magnitude() }
    }

    pub fn neg(self) -> (r: Scalar)
        ensures
            r == self.neg_spec(),
    {
        if self.bits >= SIGN_BIT {
            Scalar { bits: self.bits - SIGN_BIT }
        } else {
            Scalar { bits: self.bits + SIGN_BIT }
        }
    }

    pub fn min(self, other: Scalar) -> (r: Scalar)
        ensures
            r == self.min_spec(other),
    {
        if self.is_nan() {
            other
        } else if other.lt(self) {
            other
        } else {
            self
        }
    }

    pub fn max(self, other: Scalar) -> (r: Scalar)
        ensures
            r == self.max_spec(other),
    {
        if self.is_nan() {
            other
        } else if self.lt(other) {
            other
        } else {
            self
        }
    }
}

/// Of two numbers exactly one holds: the first is smaller, they are the same
/// number, or the second is smaller.
pub proof fn lemma_order_is_total(a: Scalar, b: Scalar)
    requires
        !a.is_nan_spec(),
        !b.is_nan_spec(),
    ensures
        a.lt_spec(b) || a.same_number(b) || b.lt_spec(a),
        !(a.lt_spec(b) && a.same_number(b)),
        !(a.lt_spec(b) && b.lt_spec(a)),
        !(a.same_number(b) && b.lt_spec(a)),
        a.le_spec(b) <==> !b.lt_spec(a),
{
}

/// The order is transitive, and a not-a-number is below and above nothing.
pub proof fn lemma_order_is_transitive(a: Scalar, b: Scalar, c: Scalar)
    ensures
        a.lt_spec(b) && b.lt_spec(c) ==> a.lt_spec(c),
        a.le_spec(b) && b.le_spec(c) ==> a.le_spec(c),
        a.is_nan_spec() ==> !a.lt_spec(b) && !b.lt_spec(a) && !a.le_spec(b) && !b.le_spec(a),
{
}

/// Clearing the sign gives a number that is not below zero, whatever the sign
/// was; flipping the sign twice gives the number back.
pub proof fn lemma_abs_and_neg(a: Scalar)
    ensures
        a.abs_spec().is_nan_spec() == a.is_nan_spec(),
        !a.abs_spec().lt_spec(Scalar { bits: 0 }),
        a.neg_spec().abs_spec() == a.abs_spec(),
        a.neg_spec().neg_spec() == a,
        a.neg_spec().rank() == -a.rank(),
{
}

/// The smaller and the larger of two numbers are the two numbers, in order.
pub proof fn lemma_min_max(a: Scalar, b: Scalar)
    ensures
        a.min_spec(b) == a || a.min_spec(b) == b,
        a.max_spec(b) == a || a.max_spec(b) == b,
        !a.is_nan_spec() && !b.is_nan_spec() ==> a.min_spec(b).le_spec(a) && a.min_spec(b).le_spec(
            b,
        ) && a.le_spec(a.max_spec(b)) && b.le_spec(a.max_spec(b)),
{
}

/// Half a positive number is positive and smaller, and half a negative one
/// negative and larger.
pub proof fn lemma_half_is_closer_to_zero(a: Scalar)
    requires
        a.has_an_exact_half(),
    ensures
        !a.halved_spec().is_nan_spec(),
        a.halved_spec().is_sign_negative_spec() == a.is_sign_negative_spec(),
        a.halved_spec().abs_spec().lt_spec(a.abs_spec()),
        (Scalar { bits: 0 }).lt_spec(a.halved_spec().abs_spec()),
{
}

} // verus!
