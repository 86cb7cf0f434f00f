//! Light as red, green and blue intensities.

use vstd::prelude::*;
use crate::scalar::Scalar;
use crate::scalar::CHANNEL_MAX_KEY;
use crate::scalar::ONE_KEY;
use crate::scalar::ZERO_KEY;
use crate::tuple::Tuple;

verus! {

/// Three intensities, unbounded above until output.
#[derive(Clone, Copy, Debug, PartialEq, Eq, Structural)]
pub struct Color {
    pub rgb: Tuple,
}

/// A channel held to the output range: above `255` gives `255`, below zero
/// gives positive zero, and anything else, a NaN included, stays.
pub open spec fn clamped(c: Scalar) -> Scalar {
    let top = Scalar { key: CHANNEL_MAX_KEY };
    let bottom = Scalar { key: ZERO_KEY };
    if top.less(c) {
        top
    } else if c.less(bottom) {
        bottom
    } else {
        c
    }
}

fn clamp_channel(c: Scalar) -> (r: Scalar)
    ensures
        r == clamped(c),
{
    let top = Scalar { key: CHANNEL_MAX_KEY };
    let bottom = Scalar::zero();
    if top.is_less(c) {
        top
    } else if c.is_less(bottom) {
        bottom
    } else {
        c
    }
}

impl From<Tuple> for Color {
    fn from(value: Tuple) -> (r: Color) {
        Color { rgb: value }
    }
}

impl vstd::std_specs::convert::FromSpecImpl<Tuple> for Color {
    open spec fn obeys_from_spec() -> bool {
        true
    }

    open spec fn from_spec(value: Tuple) -> Color {
        Color { rgb: value }
    }
}

impl Color {
    /// The colour with the given keys as channels.
    pub open spec fn from_keys(r: i64, g: i64, b: i64) -> Color {
        Color { rgb: Tuple { x: Scalar { key: r }, y: Scalar { key: g }, z: Scalar { key: b } } }
    }

    pub fn new(x: Scalar, y: Scalar, z: Scalar) -> (c: Color)
        ensures
            c.rgb == (Tuple { x, y, z }),
    {
        Color { rgb: Tuple::new(x, y, z) }
    }

    /// No light.
    pub fn black() -> (c: Color)
        ensures
            c == Color::from_keys(ZERO_KEY, ZERO_KEY, ZERO_KEY),
    {
        Color { rgb: Tuple::default() }
    }

    /// Full intensity on every channel.
    pub fn white() -> (c: Color)
        ensures
            c == Color::from_keys(ONE_KEY, ONE_KEY, ONE_KEY),
    {
        Color { rgb: Tuple::new(Scalar::one(), Scalar::one(), Scalar::one()) }
    }

    /// The colour as it is written out: each channel scaled to the output
    /// range and held within it, `0` to `255`. `scaled` holds the channels
    /// of this colour times `255`, the caller's arithmetic.
    pub fn clamp(&self, scaled: Tuple) -> (c: Color)
        ensures
            c.rgb == (Tuple { x: clamped(scaled.x), y: clamped(scaled.y), z: clamped(scaled.z) }),
    {
        Color {
            rgb: Tuple::new(
                clamp_channel(scaled.x),
                clamp_channel(scaled.y),
                clamp_channel(scaled.z),
            ),
        }
    }
}

/// A clamped channel that is a number lies in the output range, clamping
/// it again changes nothing, and a larger channel is never clamped to a
/// smaller value.
pub proof fn law_clamped_in_range(c: Scalar, d: Scalar)
    ensures
        !c.is_nan() ==> (Scalar { key: ZERO_KEY }).less_equal(clamped(c)) && clamped(c).less_equal(
            Scalar { key: CHANNEL_MAX_KEY },
        ),
        clamped(clamped(c)) == clamped(c),
        c.is_nan() ==> clamped(c) == c,
        c.less_equal(d) ==> clamped(c).less_equal(clamped(d)),
{
}

} // verus!
