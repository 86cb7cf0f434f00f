//! Triples of scalars, the common carrier of points, vectors and colours.

use vstd::prelude::*;
use crate::decimal::decimal;
use crate::decimal::push_decimal;
use crate::scalar::Scalar;
use crate::scalar::EPSILON_KEY;
use crate::scalar::ZERO_KEY;

verus! {

/// Three scalars. Equality is identity of the three values.
#[derive(Clone, Copy, Debug, PartialEq, Eq, Structural)]
pub struct Tuple {
    pub x: Scalar,
    pub y: Scalar,
    pub z: Scalar,
}

/// A component with its sign flipped, where a zero of either sign gives
/// positive zero.
pub open spec fn flipped(c: Scalar) -> Scalar {
    if c.equal(Scalar { key: ZERO_KEY }) {
        Scalar { key: ZERO_KEY }
    } else {
        c.negation()
    }
}

/// Every component of the triple is within the tolerance of zero.
pub open spec fn negligible(t: Tuple) -> bool {
    let epsilon = Scalar { key: EPSILON_KEY };
    &&& t.x.magnitude().less(epsilon)
    &&& t.y.magnitude().less(epsilon)
    &&& t.z.magnitude().less(epsilon)
}

fn flip(c: Scalar) -> (r: Scalar)
    ensures
        r == flipped(c),
{
    if c.is_equal(Scalar::zero()) {
        Scalar::zero()
    } else {
        c.negate()
    }
}

impl Default for Tuple {
    /// Three positive zeros.
    fn default() -> (t: Tuple)
        ensures
            t == Tuple::from_keys(ZERO_KEY, ZERO_KEY, ZERO_KEY),
    {
        Tuple { x: Scalar::zero(), y: Scalar::zero(), z: Scalar::zero() }
    }
}

impl Tuple {
    /// The triple with the given keys as components.
    pub open spec fn from_keys(x: i64, y: i64, z: i64) -> Tuple {
        Tuple { x: Scalar { key: x }, y: Scalar { key: y }, z: Scalar { key: z } }
    }

    pub fn new(x: Scalar, y: Scalar, z: Scalar) -> (t: Tuple)
        ensures
            t == (Tuple { x, y, z }),
    {
        Tuple { x, y, z }
    }

    /// The line of text that shows a triple by the whole parts `x`, `y` and
    /// `z` of its components: the three numbers in decimal, a space between
    /// them and a line feed at the end.
    pub fn as_str(x: i64, y: i64, z: i64) -> (line: String)
        ensures
            line@ == decimal(x as int) + seq![' '] + decimal(y as int) + seq![' '] + decimal(
                z as int,
            ) + seq!['\n'],
    {
        proof {
            reveal_strlit(" ");
            reveal_strlit("\n");
        }
        let mut line = String::new();
        push_decimal(&mut line, x);
        line.append(" ");
        push_decimal(&mut line, y);
        line.append(" ");
        push_decimal(&mut line, z);
        line.append("\n");
        assert(line@ =~= decimal(x as int) + seq![' '] + decimal(y as int) + seq![' '] + decimal(
            z as int,
        ) + seq!['\n']);
        line
    }

    /// Decides whether two triples are equal within the tolerance, from
    /// their difference: they are where every component of `self`, the one
    /// minus the other, the caller's arithmetic, is within the tolerance of
    /// zero.
    pub fn is_negligible(&self) -> (r: bool)
        ensures
            r == negligible(*self),
    {
        self.x.abs().is_less(Scalar::epsilon()) && self.y.abs().is_less(Scalar::epsilon())
            && self.z.abs().is_less(Scalar::epsilon())
    }

    /// The opposite triple: each component with its sign flipped, and never
    /// a negative zero.
    pub fn neg(self) -> (t: Tuple)
        ensures
            t == (Tuple { x: flipped(self.x), y: flipped(self.y), z: flipped(self.z) }),
    {
        Tuple { x: flip(self.x), y: flip(self.y), z: flip(self.z) }
    }
}

/// The opposite of the opposite is the triple itself, up to the sign of its
/// zeros, and the opposite holds no negative zero.
pub proof fn law_neg_involution(t: Tuple)
    ensures
        flipped(flipped(t.x)) == (if t.x.is_zero() { Scalar { key: ZERO_KEY } } else { t.x }),
        flipped(t.x).key != -1,
        flipped(t.x).is_nan() == t.x.is_nan(),
{
}

/// Equality within the tolerance holds of a triple and itself, whose
/// difference is zero, does not depend on which triple is taken from which,
/// and fails where a component of the difference is not a number.
pub proof fn law_negligible(t: Tuple)
    ensures
        negligible(Tuple::from_keys(ZERO_KEY, ZERO_KEY, ZERO_KEY)),
        negligible(t) == negligible(
            Tuple { x: t.x.negation(), y: t.y.negation(), z: t.z.negation() },
        ),
        t.x.is_nan() || t.y.is_nan() || t.z.is_nan() ==> !negligible(t),
{
}

} // verus!
