//! Binary64 numbers held by their bit patterns.
//!
//! A [`Scalar`] carries one IEEE 754 binary64 number as its sixty-four bits.
//! Ordering such numbers needs no arithmetic on them: apart from the
//! not-a-number patterns, the magnitude bits grow with the magnitude of the
//! number they encode, so every comparison is a comparison of integers.

use vstd::prelude::*;

verus! {

/// The pattern in which only the sign bit is set (negative zero).
pub const SIGN_BIT: u64 = 0x8000_0000_0000_0000;

/// The pattern of positive infinity. A larger magnitude encodes no number.
pub const INFINITY_BITS: u64 = 0x7ff0_0000_0000_0000;

/// The pattern of positive zero.
pub const ZERO_BITS: u64 = 0;

/// The pattern of the number one.
pub const ONE_BITS: u64 = 0x3ff0_0000_0000_0000;

/// The pattern of 1e-7, the tolerance of the triangle test.
pub const EPSILON_BITS: u64 = 0x3e7a_d7f2_9abc_af48;

/// The pattern of -1e-7.
pub const NEG_EPSILON_BITS: u64 = 0xbe7a_d7f2_9abc_af48;

/// One binary64 number.
#[derive(Clone, Copy, Debug)]
pub struct Scalar {
    pub bits: u64,
}

impl Scalar {
    /// Whether the sign bit is set.
    pub open spec fn negative(self) -> bool {
        self.bits >= SIGN_BIT
    }

    /// The pattern without its sign bit.
    pub open spec fn magnitude(self) -> int {
        if self.bits >= SIGN_BIT {
            self.bits - SIGN_BIT
        } else {
            self.bits as int
        }
    }

    /// Whether the pattern encodes no number.
    pub open spec fn nan(self) -> bool {
        self.magnitude() > INFINITY_BITS
    }

    /// The place of the number on the number line: numbers compare as their
    /// ranks do, and the two zeros share rank zero.
    pub open spec fn rank(self) -> int {
        if self.negative() {
            -self.magnitude()
        } else {
            self.magnitude()
        }
    }

    /// Whether both are numbers.
    pub open spec fn comparable(self, other: Scalar) -> bool {
        !self.nan() && !other.nan()
    }

    /// `self < other` as IEEE 754 defines it.
    pub open spec fn less(self, other: Scalar) -> bool {
        self.comparable(other) && self.rank() < other.rank()
    }

    /// `self <= other` as IEEE 754 defines it.
    pub open spec fn at_most(self, other: Scalar) -> bool {
        self.comparable(other) && self.rank() <= other.rank()
    }

    /// `self > other` as IEEE 754 defines it.
    pub open spec fn greater(self, other: Scalar) -> bool {
        other.less(self)
    }

    /// `self >= other` as IEEE 754 defines it.
    pub open spec fn at_least(self, other: Scalar) -> bool {
        other.at_most(self)
    }

    /// The smaller of two numbers, where a pattern that is no number yields
    /// to the other argument and `self` wins a tie.
    pub open spec fn lesser_of(self, other: Scalar) -> Scalar {
        if self.nan() {
            other
        } else if other.nan() {
            self
        } else if other.rank() < self.rank() {
            other
        } else {
            self
        }
    }

    /// The larger of two numbers, where a pattern that is no number yields
    /// to the other argument and `self` wins a tie.
    pub open spec fn greater_of(self, other: Scalar) -> Scalar {
        if self.nan() {
            other
        } else if other.nan() {
            self
        } else if self.rank() < other.rank() {
            other
        } else {
            self
        }
    }

    /// The number of the same magnitude and the other sign.
    pub open spec fn negated(self) -> Scalar {
        if self.bits >= SIGN_BIT {
            Scalar { bits: (self.bits - SIGN_BIT) as u64 }
        } else {
            Scalar { bits: (self.bits + SIGN_BIT) as u64 }
        }
    }

    /// The number with the given bit pattern.
    pub fn from_bits(bits: u64) -> (r: Scalar)
        ensures
            r.bits == bits,
    {
        Scalar { bits }
    }

    /// The bit pattern of the number.
    pub fn to_bits(self) -> (r: u64)
        ensures
            r == self.bits,
    {
        self.bits
    }

    /// Positive zero.
    pub fn zero() -> (r: Scalar)
        ensures
            r.bits == ZERO_BITS,
    {
        Scalar { bits: ZERO_BITS }
    }

    /// The number one.
    pub fn one() -> (r: Scalar)
        ensures
            r.bits == ONE_BITS,
    {
        Scalar { bits: ONE_BITS }
    }

    /// The tolerance of the triangle test, 1e-7.
    pub fn epsilon() -> (r: Scalar)
        ensures
            r.bits == EPSILON_BITS,
    {
        Scalar { bits: EPSILON_BITS }
    }

    /// The negated tolerance, -1e-7.
    pub fn neg_epsilon() -> (r: Scalar)
        ensures
            r.bits == NEG_EPSILON_BITS,
    {
        Scalar { bits: NEG_EPSILON_BITS }
    }

    /// Whether the pattern encodes no number.
    pub fn is_nan(self) -> (r: bool)
        ensures
            r == self.nan(),
    {
        if self.bits >= SIGN_BIT {
            self.bits - SIGN_BIT > INFINITY_BITS
        } else {
            self.bits > INFINITY_BITS
        }
    }

    /// The number of the same magnitude and the other sign; of zero, the
    /// other zero.
    pub fn neg(self) -> (r: Scalar)
        ensures
            r == self.negated(),
    {
        if self.bits >= SIGN_BIT {
            Scalar { bits: self.bits - SIGN_BIT }
        } else {
            Scalar { bits: self.bits + SIGN_BIT }
        }
    }

    /// `self < other`: false whenever either is no number, and false between
    /// the two zeros.
    pub fn lt(self, other: Scalar) -> (r: bool)
        ensures
            r == self.less(other),
    {
        if self.is_nan() || other.is_nan() {
            false
        } else if self.bits >= SIGN_BIT {
            if other.bits >= SIGN_BIT {
                self.bits > other.bits
            } else {
                self.bits > SIGN_BIT || other.bits > 0
            }
        } else {
            other.bits < SIGN_BIT && self.bits < other.bits
        }
    }

    /// `self <= other`: false whenever either is no number.
    pub fn le(self, other: Scalar) -> (r: bool)
        ensures
            r == self.at_most(other),
    {
        if self.is_nan() || other.is_nan() {
            false
        } else if self.bits >= SIGN_BIT {
            other.bits < SIGN_BIT || self.bits >= other.bits
        } else if other.bits >= SIGN_BIT {
            self.bits == 0 && other.bits == SIGN_BIT
        } else {
            self.bits <= other.bits
        }
    }

    /// `self > other`: false whenever either is no number.
    pub fn gt(self, other: Scalar) -> (r: bool)
        ensures
            r == self.greater(other),
    {
        other.lt(self)
    }

    /// `self >= other`: false whenever either is no number.
    pub fn ge(self, other: Scalar) -> (r: bool)
        ensures
            r == self.at_least(other),
    {
        other.le(self)
    }

    /// The smaller of the two; a pattern that is no number is ignored in
    /// favour of the other argument.
    pub fn min(self, other: Scalar) -> (r: Scalar)
        ensures
            r == self.lesser_of(other),
    {
        if self.is_nan() {
            other
        } else if other.is_nan() {
            self
        } else if other.lt(self) {
            other
        } else {
            self
        }
    }

    /// The larger of the two; a pattern that is no number is ignored in
    /// favour of the other argument.
    pub fn max(self, other: Scalar) -> (r: Scalar)
        ensures
            r == self.greater_of(other),
    {
        if self.is_nan() {
            other
        } else if other.is_nan() {
            self
        } else if self.lt(other) {
            other
        } else {
            self
        }
    }
}

/// Among numbers, the lesser of two is one of them and exceeds neither.
pub proof fn lemma_lesser_of_bounds(a: Scalar, b: Scalar)
    requires
        a.comparable(b),
    ensures
        a.lesser_of(b) == a || a.lesser_of(b) == b,
        a.lesser_of(b).at_most(a),
        a.lesser_of(b).at_most(b),
{
}

/// Among numbers, the greater of two is one of them and neither exceeds it.
pub proof fn lemma_greater_of_bounds(a: Scalar, b: Scalar)
    requires
        a.comparable(b),
    ensures
        a.greater_of(b) == a || a.greater_of(b) == b,
        a.at_most(a.greater_of(b)),
        b.at_most(a.greater_of(b)),
{
}

/// Among numbers exactly one of `a < b`, `a == b` in value, `a > b` holds, and
/// `<=` is `<` or equal rank.
pub proof fn lemma_order_is_total(a: Scalar, b: Scalar)
    requires
        a.comparable(b),
    ensures
        a.less(b) || a.greater(b) || a.rank() == b.rank(),
        a.at_most(b) <==> !a.greater(b),
        a.at_most(b) || b.at_most(a),
{
}

/// Negating mirrors a number at zero, and negating twice gives it back.
pub proof fn lemma_negated_mirrors(a: Scalar)
    ensures
        a.negated().rank() == -a.rank(),
        a.negated().nan() == a.nan(),
        a.negated().negated() == a,
{
}

/// Against a pattern that is no number every comparison is false.
pub proof fn lemma_nan_compares_false(a: Scalar, b: Scalar)
    requires
        a.nan() || b.nan(),
    ensures
        !a.less(b),
        !a.at_most(b),
        !a.greater(b),
        !a.at_least(b),
{
}

} // verus!
