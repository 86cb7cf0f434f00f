//! Procedural surface colours: two colours, a rule that alternates or
//! blends them, and the pattern's own coordinate frame.

use vstd::prelude::*;
use crate::color::Color;
use crate::matrice::Matrice;
use crate::point::Point;
use crate::scalar::ONE_KEY;
use crate::scalar::ZERO_KEY;

verus! {

/// The rule of a pattern and its two colours.
#[derive(Clone, Copy, Debug, PartialEq, Eq, Structural)]
pub enum PatternType {
    Ring(Color, Color),
    Stripe(Color, Color),
    Gradient(Color, Color),
    Checker(Color, Color),
    Test,
}

/// The colour that a rule gives at a point of pattern space, where the
/// point lies in band number `band` of the rule and `blend` is the mix of
/// the two colours there: an alternating rule takes its first colour on even
/// bands and its second on odd ones, a gradient takes the mix, and the test
/// rule shows the point itself.
pub open spec fn colour_at(rule: PatternType, point: Point, band: i32, blend: Color) -> Color {
    match rule {
        PatternType::Ring(c1, c2) | PatternType::Stripe(c1, c2) | PatternType::Checker(c1, c2) => {
            if band % 2 == 0 {
                c1
            } else {
                c2
            }
        },
        PatternType::Gradient(_, _) => blend,
        PatternType::Test => Color { rgb: point.position },
    }
}

impl Default for PatternType {
    /// Stripes of black and white.
    fn default() -> (p: PatternType)
        ensures
            p matches PatternType::Stripe(c1, c2) && c1.rgb.x.key == ZERO_KEY && c1.rgb.y.key
                == ZERO_KEY && c1.rgb.z.key == ZERO_KEY && c2.rgb.x.key == ONE_KEY && c2.rgb.y.key
                == ONE_KEY && c2.rgb.z.key == ONE_KEY,
    {
        PatternType::Stripe(Color::black(), Color::white())
    }
}

fn is_even(band: i32) -> (r: bool)
    ensures
        r == (band % 2 == 0),
{
    let half: i32 = band / 2;
    band - half == half
}

impl PatternType {
    /// The colour of the rule at a point of pattern space. The caller
    /// supplies what takes arithmetic: the number of the band that holds
    /// the point (for stripes the floor of `x`, for rings the whole part of
    /// the distance from the `y` axis, for checkers the parity of the cell),
    /// and for a gradient the interpolated colour.
    pub fn at(&self, point: &Point, band: i32, blend: Color) -> (c: Color)
        ensures
            c == colour_at(*self, *point, band, blend),
    {
        match self {
            PatternType::Ring(c1, c2) => {
                if is_even(band) {
                    *c1
                } else {
                    *c2
                }
            },
            PatternType::Stripe(c1, c2) => {
                if is_even(band) {
                    *c1
                } else {
                    *c2
                }
            },
            PatternType::Checker(c1, c2) => {
                if is_even(band) {
                    *c1
                } else {
                    *c2
                }
            },
            PatternType::Gradient(_, _) => blend,
            PatternType::Test => Color::from(point.position),
        }
    }
}

/// A rule in its own frame: the transform from pattern space to object
/// space, and the inverse that takes object points into pattern space.
#[derive(Clone, Debug)]
pub struct Pattern {
    pub pattern_type: PatternType,
    pub transformation: Matrice,
    pub transformation_inverse: Matrice,
}

impl Pattern {
    /// Both matrices are square and of one size.
    pub open spec fn well_formed(&self) -> bool {
        &&& self.transformation.well_formed()
        &&& self.transformation_inverse.well_formed()
        &&& self.transformation.size == self.transformation_inverse.size
    }

    /// The pattern lies in object space as it is: both matrices are the
    /// 4×4 identity.
    pub open spec fn is_untransformed(&self) -> bool {
        &&& self.well_formed()
        &&& self.transformation.size == 4
        &&& self.transformation.is_identity()
        &&& self.transformation_inverse.is_identity()
    }

    /// A pattern with the given rule and frame. `transformation_inverse`
    /// is the inverse of `transformation`, computed by the caller.
    pub fn new(pattern_type: PatternType, transformation: Matrice, transformation_inverse: Matrice) -> (p:
        Pattern)
        requires
            transformation.well_formed(),
            transformation_inverse.well_formed(),
            transformation.size == transformation_inverse.size,
        ensures
            p.well_formed(),
            p.pattern_type == pattern_type,
            p.transformation == transformation,
            p.transformation_inverse == transformation_inverse,
    {
        Pattern { pattern_type, transformation, transformation_inverse }
    }

    fn untransformed(pattern_type: PatternType) -> (p: Pattern)
        ensures
            p.is_untransformed(),
            p.pattern_type == pattern_type,
    {
        Pattern {
            pattern_type,
            transformation: Matrice::identity(),
            transformation_inverse: Matrice::identity(),
        }
    }

    /// Rings about the `y` axis, untransformed.
    pub fn ring(c1: Color, c2: Color) -> (p: Pattern)
        ensures
            p.is_untransformed(),
            p.pattern_type == PatternType::Ring(c1, c2),
    {
        Pattern::untransformed(PatternType::Ring(c1, c2))
    }

    /// Stripes along `x`, untransformed.
    pub fn stripe(c1: Color, c2: Color) -> (p: Pattern)
        ensures
            p.is_untransformed(),
            p.pattern_type == PatternType::Stripe(c1, c2),
    {
        Pattern::untransformed(PatternType::Stripe(c1, c2))
    }

    /// Checkers in all three directions, untransformed.
    pub fn checker(c1: Color, c2: Color) -> (p: Pattern)
        ensures
            p.is_untransformed(),
            p.pattern_type == PatternType::Checker(c1, c2),
    {
        Pattern::untransformed(PatternType::Checker(c1, c2))
    }

    /// A gradient along `x`, untransformed.
    pub fn gradient(from: Color, to: Color) -> (p: Pattern)
        ensures
            p.is_untransformed(),
            p.pattern_type == PatternType::Gradient(from, to),
    {
        Pattern::untransformed(PatternType::Gradient(from, to))
    }

    /// The rule that shows each point as its own colour, untransformed.
    pub fn test() -> (p: Pattern)
        ensures
            p.is_untransformed(),
            p.pattern_type == PatternType::Test,
    {
        Pattern::untransformed(PatternType::Test)
    }

    /// Replaces the frame, the transform and its inverse together.
    pub fn set_transformation(&mut self, transformation: Matrice, transformation_inverse: Matrice)
        requires
            transformation.well_formed(),
            transformation_inverse.well_formed(),
            transformation.size == transformation_inverse.size,
        ensures
            final(self).well_formed(),
            final(self).pattern_type == old(self).pattern_type,
            final(self).transformation == transformation,
            final(self).transformation_inverse == transformation_inverse,
    {
        self.transformation = transformation;
        self.transformation_inverse = transformation_inverse;
    }

    /// The colour of the pattern at a point already taken into pattern
    /// space, with the band and blend that the rule's arithmetic gives
    /// there.
    pub fn at(&self, pattern_point: &Point, band: i32, blend: Color) -> (c: Color)
        ensures
            c == colour_at(self.pattern_type, *pattern_point, band, blend),
    {
        self.pattern_type.at(pattern_point, band, blend)
    }
}

impl Default for Pattern {
    /// Untransformed stripes of black and white.
    fn default() -> (p: Pattern)
        ensures
            p.is_untransformed(),
            p.pattern_type is Stripe,
    {
        Pattern::untransformed(PatternType::default())
    }
}

/// An alternating rule gives the same colour two bands further on and the
/// other colour on the next band.
pub proof fn law_bands_alternate(c1: Color, c2: Color, point: Point, band: i32, blend: Color)
    requires
        band < i32::MAX - 1,
    ensures
        colour_at(PatternType::Stripe(c1, c2), point, (band + 2) as i32, blend) == colour_at(
            PatternType::Stripe(c1, c2),
            point,
            band,
            blend,
        ),
        colour_at(PatternType::Stripe(c1, c2), point, band, blend) == c1 ==> colour_at(
            PatternType::Stripe(c1, c2),
            point,
            (band + 1) as i32,
            blend,
        ) == c2,
        colour_at(PatternType::Ring(c1, c2), point, band, blend) == colour_at(
            PatternType::Stripe(c1, c2),
            point,
            band,
            blend,
        ),
{
}

} // verus!
