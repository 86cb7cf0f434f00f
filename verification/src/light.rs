//! The point light.

use vstd::prelude::*;
use crate::color::Color;
use crate::point::Point;
use crate::scalar::Scalar;
use crate::scalar::ONE_KEY;

verus! {

/// Key of `10`.
pub const TEN_KEY: i64 = 0x4024_0000_0000_0000;

/// Key of `-5`.
pub const MINUS_FIVE_KEY: i64 = -0x4014_0000_0000_0001;

/// Key of `-10`.
pub const MINUS_TEN_KEY: i64 = -0x4024_0000_0000_0001;

/// A light without extent: a position and the colour it sheds.
#[derive(Clone, Copy, Debug, PartialEq, Eq, Structural)]
pub struct Light {
    pub position: Point,
    pub intensity: Color,
}

impl Light {
    pub fn new(position: Point, intensity: Color) -> (l: Light)
        ensures
            l.position == position,
            l.intensity == intensity,
    {
        Light { position, intensity }
    }
}

impl Default for Light {
    /// A white light at `(-5, 10, -10)`.
    fn default() -> (l: Light)
        ensures
            l.position.position.x.key == MINUS_FIVE_KEY,
            l.position.position.y.key == TEN_KEY,
            l.position.position.z.key == MINUS_TEN_KEY,
            l.intensity.rgb.x.key == ONE_KEY,
            l.intensity.rgb.y.key == ONE_KEY,
            l.intensity.rgb.z.key == ONE_KEY,
    {
        Light::new(
            Point::new(
                Scalar { key: MINUS_FIVE_KEY },
                Scalar { key: TEN_KEY },
                Scalar { key: MINUS_TEN_KEY },
            ),
            Color::white(),
        )
    }
}

} // verus!
