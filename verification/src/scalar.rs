//! Real-valued quantities as the renderer carries them.
//!
//! A `Scalar` is an IEEE-754 binary64 value held by the integer that ranks it
//! in the standard's total order. Nothing here does arithmetic: the module
//! only builds, orders, tests and re-signs values, all of which the standard
//! defines on the bit pattern alone.

use vstd::prelude::*;

verus! {

/// Bit pattern of the sign bit of a binary64 value.
pub const SIGN_BIT: u64 = 0x8000_0000_0000_0000;

/// Key of positive infinity; every larger key is a NaN.
pub const INFINITY_KEY: i64 = 0x7FF0_0000_0000_0000;

/// Key of negative infinity; every smaller key is a NaN.
pub const NEG_INFINITY_KEY: i64 = -0x7FF0_0000_0000_0001;

/// Key of positive zero.
pub const ZERO_KEY: i64 = 0;

/// Key of negative zero.
pub const NEG_ZERO_KEY: i64 = -1;

/// Key of the number one.
pub const ONE_KEY: i64 = 0x3FF0_0000_0000_0000;

/// Key of minus one.
pub const NEG_ONE_KEY: i64 = -0x3FF0_0000_0000_0001;

/// Key of the tolerance `1e-7` used for near-zero tests.
pub const EPSILON_KEY: i64 = 0x3E7A_D7F2_9ABC_AF48;

/// Key of `255`, the largest channel value of an output pixel.
pub const CHANNEL_MAX_KEY: i64 = 0x406F_E000_0000_0000;

/// A binary64 value, identified by its rank in the IEEE-754 total order.
///
/// Non-negative keys are the bit patterns with a clear sign bit, in their
/// natural order; negative keys are the patterns with the sign bit set, in
/// reverse, so that `key` grows exactly as the total order does.
#[derive(Clone, Copy, Debug, PartialEq, Eq, Structural)]
pub struct Scalar {
    pub key: i64,
}

/// The key that ranks a bit pattern.
pub open spec fn key_of_bits(bits: u64) -> int {
    if bits < SIGN_BIT {
        bits as int
    } else {
        -1 - (bits - SIGN_BIT)
    }
}

/// The bit pattern that a key ranks.
pub open spec fn bits_of_key(key: int) -> int {
    if key >= 0 {
        key
    } else {
        (-1 - key) + SIGN_BIT
    }
}

impl Scalar {
    /// Whether the value is a NaN.
    pub open spec fn is_nan(self) -> bool {
        self.key > INFINITY_KEY || self.key < NEG_INFINITY_KEY
    }

    /// Whether the value is a zero of either sign.
    pub open spec fn is_zero(self) -> bool {
        self.key == ZERO_KEY || self.key == NEG_ZERO_KEY
    }

    /// Total order: `self` comes no later than `other`.
    pub open spec fn precedes(self, other: Scalar) -> bool {
        self.key <= other.key
    }

    /// Numeric equality: false with a NaN on either side, and blind to the
    /// sign of zero.
    pub open spec fn equal(self, other: Scalar) -> bool {
        &&& !self.is_nan()
        &&& !other.is_nan()
        &&& (self.key == other.key || (self.is_zero() && other.is_zero()))
    }

    /// Numeric `<`: false with a NaN on either side; the two zeros tie.
    pub open spec fn less(self, other: Scalar) -> bool {
        &&& !self.is_nan()
        &&& !other.is_nan()
        &&& self.key < other.key
        &&& !(self.is_zero() && other.is_zero())
    }

    /// Numeric `<=`.
    pub open spec fn less_equal(self, other: Scalar) -> bool {
        self.less(other) || self.equal(other)
    }

    /// Numeric `> 0`.
    pub open spec fn positive(self) -> bool {
        Scalar { key: ZERO_KEY }.less(self)
    }

    /// Numeric `< 0`.
    pub open spec fn negative(self) -> bool {
        self.less(Scalar { key: ZERO_KEY })
    }

    /// The value with its sign flipped.
    pub open spec fn negation(self) -> Scalar {
        Scalar { key: (-1 - self.key) as i64 }
    }

    /// The value with its sign cleared.
    pub open spec fn magnitude(self) -> Scalar {
        if self.key >= 0 {
            self
        } else {
            self.negation()
        }
    }

    /// The numerically larger of two values: where one of them is a NaN the
    /// one that is not, and `self` where both are equal.
    pub open spec fn larger(self, other: Scalar) -> Scalar {
        if self.is_nan() || self.less(other) {
            other
        } else {
            self
        }
    }

    /// The numerically smaller of two values: where one of them is a NaN
    /// the one that is not, and `self` where both are equal.
    pub open spec fn smaller(self, other: Scalar) -> Scalar {
        if self.is_nan() || other.less(self) {
            other
        } else {
            self
        }
    }

    /// The scalar with the given bit pattern.
    pub fn from_bits(bits: u64) -> (s: Scalar)
        ensures
            s.key == key_of_bits(bits),
    {
        if bits < SIGN_BIT {
            Scalar { key: bits as i64 }
        } else {
            let low: u64 = bits - SIGN_BIT;
            Scalar { key: -1 - (low as i64) }
        }
    }

    /// The bit pattern of the scalar.
    pub fn to_bits(self) -> (bits: u64)
        ensures
            bits == bits_of_key(self.key as int),
    {
        if self.key >= 0 {
            self.key as u64
        } else {
            let low: i64 = -1 - self.key;
            (low as u64) + SIGN_BIT
        }
    }

    /// Positive zero.
    pub fn zero() -> (s: Scalar)
        ensures
            s.key == ZERO_KEY,
    {
        Scalar { key: ZERO_KEY }
    }

    /// The number one.
    pub fn one() -> (s: Scalar)
        ensures
            s.key == ONE_KEY,
    {
        Scalar { key: ONE_KEY }
    }

    /// The near-zero tolerance.
    pub fn epsilon() -> (s: Scalar)
        ensures
            s.key == EPSILON_KEY,
    {
        Scalar { key: EPSILON_KEY }
    }

    /// Whether the value is a NaN.
    pub fn is_not_a_number(self) -> (r: bool)
        ensures
            r == self.is_nan(),
    {
        self.key > INFINITY_KEY || self.key < NEG_INFINITY_KEY
    }

    /// Whether the value is a zero of either sign.
    pub fn is_any_zero(self) -> (r: bool)
        ensures
            r == self.is_zero(),
    {
        self.key == ZERO_KEY || self.key == NEG_ZERO_KEY
    }

    /// Numeric `==`.
    pub fn is_equal(self, other: Scalar) -> (r: bool)
        ensures
            r == self.equal(other),
    {
        !self.is_not_a_number() && !other.is_not_a_number() && (self.key == other.key || (
        self.is_any_zero() && other.is_any_zero()))
    }

    /// Numeric `<`.
    pub fn is_less(self, other: Scalar) -> (r: bool)
        ensures
            r == self.less(other),
    {
        !self.is_not_a_number() && !other.is_not_a_number() && self.key < other.key && !(
        self.is_any_zero() && other.is_any_zero())
    }

    /// Numeric `<=`.
    pub fn is_less_equal(self, other: Scalar) -> (r: bool)
        ensures
            r == self.less_equal(other),
    {
        self.is_less(other) || self.is_equal(other)
    }

    /// Numeric `> 0`: the keys from just above zero up to infinity.
    pub fn is_positive(self) -> (r: bool)
        ensures
            r == self.positive(),
            r == (0 < self.key <= INFINITY_KEY),
    {
        Scalar::zero().is_less(self)
    }

    /// Numeric `< 0`: the keys from negative infinity up to just below
    /// negative zero.
    pub fn is_negative(self) -> (r: bool)
        ensures
            r == self.negative(),
            r == (NEG_INFINITY_KEY <= self.key < NEG_ZERO_KEY),
    {
        self.is_less(Scalar::zero())
    }

    /// Flips the sign.
    pub fn negate(self) -> (s: Scalar)
        ensures
            s == self.negation(),
    {
        Scalar { key: -1 - self.key }
    }

    /// Clears the sign.
    pub fn abs(self) -> (s: Scalar)
        ensures
            s == self.magnitude(),
    {
        if self.key >= 0 {
            self
        } else {
            self.negate()
        }
    }

    /// The numerically larger of two values.
    pub fn max(self, other: Scalar) -> (s: Scalar)
        ensures
            s == self.larger(other),
    {
        if self.is_not_a_number() || self.is_less(other) {
            other
        } else {
            self
        }
    }

    /// The numerically smaller of two values.
    pub fn min(self, other: Scalar) -> (s: Scalar)
        ensures
            s == self.smaller(other),
    {
        if self.is_not_a_number() || other.is_less(self) {
            other
        } else {
            self
        }
    }
}

/// Keys and bit patterns determine each other, and each of the two
/// conversions stays within its type.
pub proof fn law_bits_round_trip(bits: u64, key: i64)
    ensures
        bits_of_key(key_of_bits(bits)) == bits,
        key_of_bits(bits_of_key(key as int) as u64) == key,
        i64::MIN <= key_of_bits(bits) <= i64::MAX,
        0 <= bits_of_key(key as int) <= u64::MAX,
{
}

/// Flipping the sign twice changes nothing. Flipping it once reverses the
/// total order, sends a number above zero to one below, keeps a NaN a NaN,
/// and changes the sign bit of the pattern and no other.
pub proof fn law_negation(a: Scalar, b: Scalar)
    ensures
        a.negation().negation() == a,
        a.precedes(b) <==> b.negation().precedes(a.negation()),
        a.positive() <==> a.negation().negative(),
        a.is_nan() <==> a.negation().is_nan(),
        bits_of_key(a.negation().key as int) == if a.key >= 0 {
            bits_of_key(a.key as int) + SIGN_BIT
        } else {
            bits_of_key(a.key as int) - SIGN_BIT
        },
{
}

/// On numbers, numeric `<` refines the total order, and differs from it only
/// in tying the two zeros.
pub proof fn law_less_refines_total_order(a: Scalar, b: Scalar)
    ensures
        a.less(b) ==> a.precedes(b) && !b.precedes(a),
        !a.is_nan() && !b.is_nan() && a.precedes(b) ==> a.less_equal(b),
        a.less_equal(b) && b.less_equal(a) <==> a.equal(b),
{
}

/// The larger of two numbers is one of them and is below neither; the
/// smaller is one of them and above neither.
pub proof fn law_larger_smaller(a: Scalar, b: Scalar)
    requires
        !a.is_nan(),
        !b.is_nan(),
    ensures
        a.larger(b) == a || a.larger(b) == b,
        a.less_equal(a.larger(b)) && b.less_equal(a.larger(b)),
        a.smaller(b) == a || a.smaller(b) == b,
        a.smaller(b).less_equal(a) && a.smaller(b).less_equal(b),
{
}

} // verus!
