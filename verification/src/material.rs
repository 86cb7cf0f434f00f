//! Optical properties of a surface, their defaults, and the cases of the
//! Phong lighting model.

use vstd::prelude::*;
use crate::color::Color;
use crate::pattern::Pattern;
use crate::scalar::Scalar;
use crate::scalar::ONE_KEY;
use crate::scalar::ZERO_KEY;

verus! {

/// Key of `0.1`, the default ambient coefficient.
pub const AMBIENT_KEY: i64 = 0x3FB9_9999_9999_999A;

/// Key of `0.9`, the default diffuse and specular coefficient.
pub const DIFFUSE_KEY: i64 = 0x3FEC_CCCC_CCCC_CCCD;

/// Key of `200`, the default shininess.
pub const SHININESS_KEY: i64 = 0x4069_0000_0000_0000;

/// How a surface answers light.
#[derive(Clone, Debug)]
pub struct Material {
    pub color: Color,
    pub ambient: Scalar,
    pub diffuse: Scalar,
    pub specular: Scalar,
    pub shininess: Scalar,
    pub pattern: Option<Pattern>,
    pub reflective: Scalar,
    pub transparency: Scalar,
    pub refractive_index: Scalar,
}

/// The terms of the lighting sum that a surface point receives.
#[derive(Clone, Copy, Debug, PartialEq, Eq, Structural)]
pub enum Illumination {
    /// The point is in shadow: the ambient term alone.
    Shadowed,
    /// The light is behind the surface: ambient, with diffuse and specular
    /// both black.
    LightBehind,
    /// The light reflects away from the eye: ambient and diffuse, with
    /// specular black.
    Matte,
    /// Ambient, diffuse and specular.
    Glossy,
}

/// The case of the lighting model that holds for a point, given whether it
/// is in shadow, the cosine between the direction to the light and the
/// normal, and the cosine between the reflected light and the eye.
pub open spec fn illumination(in_shadow: bool, light_dot_normal: Scalar, reflect_dot_eye: Scalar) -> Illumination {
    if in_shadow {
        Illumination::Shadowed
    } else if light_dot_normal.negative() {
        Illumination::LightBehind
    } else if reflect_dot_eye.less_equal(Scalar { key: ZERO_KEY }) {
        Illumination::Matte
    } else {
        Illumination::Glossy
    }
}

impl Material {
    /// The pattern, if there is one, is well formed.
    pub open spec fn well_formed(&self) -> bool {
        self.pattern matches Some(p) ==> p.well_formed()
    }

    /// Every field but the pattern has its default value.
    pub open spec fn has_default_coefficients(&self) -> bool {
        &&& self.color.rgb.x.key == ONE_KEY
        &&& self.color.rgb.y.key == ONE_KEY
        &&& self.color.rgb.z.key == ONE_KEY
        &&& self.ambient.key == AMBIENT_KEY
        &&& self.diffuse.key == DIFFUSE_KEY
        &&& self.specular.key == DIFFUSE_KEY
        &&& self.shininess.key == SHININESS_KEY
        &&& self.reflective.key == ZERO_KEY
        &&& self.transparency.key == ZERO_KEY
        &&& self.refractive_index.key == ONE_KEY
    }

    /// A builder on which nothing was set.
    pub fn builder() -> (b: MaterialBuilder)
        ensures
            b.is_empty(),
    {
        MaterialBuilder::default()
    }

    /// The colour that the lighting model starts from at a point: the
    /// colour of the pattern there where the material has a pattern, else
    /// the colour of the material. `pattern_color` is the colour of the
    /// pattern at the point, the caller's arithmetic; it is looked at only
    /// where there is a pattern.
    pub fn base_color(&self, pattern_color: Color) -> (c: Color)
        ensures
            c == (if self.pattern is Some {
                pattern_color
            } else {
                self.color
            }),
    {
        match &self.pattern {
            Some(_) => pattern_color,
            None => self.color,
        }
    }

    /// Decides which terms of the lighting sum a point receives. The two
    /// cosines are the caller's arithmetic; where the light is behind the
    /// surface the second is not looked at.
    pub fn lighting(in_shadow: bool, light_dot_normal: Scalar, reflect_dot_eye: Scalar) -> (i:
        Illumination)
        ensures
            i == illumination(in_shadow, light_dot_normal, reflect_dot_eye),
    {
        if in_shadow {
            Illumination::Shadowed
        } else if light_dot_normal.is_negative() {
            Illumination::LightBehind
        } else if reflect_dot_eye.is_less_equal(Scalar::zero()) {
            Illumination::Matte
        } else {
            Illumination::Glossy
        }
    }
}

impl Default for Material {
    /// White, ambient `0.1`, diffuse and specular `0.9`, shininess `200`,
    /// no pattern, neither reflective nor transparent, refractive index `1`.
    fn default() -> (m: Material)
        ensures
            m.has_default_coefficients(),
            m.pattern is None,
    {
        Material {
            color: Color::white(),
            ambient: Scalar { key: AMBIENT_KEY },
            diffuse: Scalar { key: DIFFUSE_KEY },
            specular: Scalar { key: DIFFUSE_KEY },
            shininess: Scalar { key: SHININESS_KEY },
            pattern: None,
            reflective: Scalar::zero(),
            transparency: Scalar::zero(),
            refractive_index: Scalar::one(),
        }
    }
}

/// Collects the fields of a material one by one; what is not set takes its
/// default.
#[derive(Clone, Debug)]
pub struct MaterialBuilder {
    pub color: Option<Color>,
    pub ambient: Option<Scalar>,
    pub diffuse: Option<Scalar>,
    pub specular: Option<Scalar>,
    pub shininess: Option<Scalar>,
    pub pattern: Option<Pattern>,
    pub reflective: Option<Scalar>,
    pub transparency: Option<Scalar>,
    pub refractive_index: Option<Scalar>,
}

/// The field if it was set, else its default.
pub open spec fn or_key(field: Option<Scalar>, key: i64) -> Scalar {
    match field {
        Some(s) => s,
        None => Scalar { key },
    }
}

fn scalar_or(field: Option<Scalar>, key: i64) -> (s: Scalar)
    ensures
        s == or_key(field, key),
{
    match field {
        Some(s) => s,
        None => Scalar { key },
    }
}

impl Default for MaterialBuilder {
    /// A builder on which nothing was set.
    fn default() -> (b: MaterialBuilder)
        ensures
            b.is_empty(),
    {
        MaterialBuilder {
            color: None,
            ambient: None,
            diffuse: None,
            specular: None,
            shininess: None,
            pattern: None,
            reflective: None,
            transparency: None,
            refractive_index: None,
        }
    }
}

impl MaterialBuilder {
    /// Nothing was set yet.
    pub open spec fn is_empty(&self) -> bool {
        &&& self.color is None
        &&& self.ambient is None
        &&& self.diffuse is None
        &&& self.specular is None
        &&& self.shininess is None
        &&& self.pattern is None
        &&& self.reflective is None
        &&& self.transparency is None
        &&& self.refractive_index is None
    }

    /// Sets the colour.
    pub fn color(self, color: Color) -> (b: MaterialBuilder)
        ensures
            b == (MaterialBuilder { color: Some(color), ..self }),
    {
        let mut b = self;
        b.color = Some(color);
        b
    }

    /// Sets the ambient coefficient.
    pub fn ambient(self, ambient: Scalar) -> (b: MaterialBuilder)
        ensures
            b == (MaterialBuilder { ambient: Some(ambient), ..self }),
    {
        let mut b = self;
        b.ambient = Some(ambient);
        b
    }

    /// Sets the diffuse coefficient.
    pub fn diffuse(self, diffuse: Scalar) -> (b: MaterialBuilder)
        ensures
            b == (MaterialBuilder { diffuse: Some(diffuse), ..self }),
    {
        let mut b = self;
        b.diffuse = Some(diffuse);
        b
    }

    /// Sets the specular coefficient.
    pub fn specular(self, specular: Scalar) -> (b: MaterialBuilder)
        ensures
            b == (MaterialBuilder { specular: Some(specular), ..self }),
    {
        let mut b = self;
        b.specular = Some(specular);
        b
    }

    /// Sets the shininess.
    pub fn shininess(self, shininess: Scalar) -> (b: MaterialBuilder)
        ensures
            b == (MaterialBuilder { shininess: Some(shininess), ..self }),
    {
        let mut b = self;
        b.shininess = Some(shininess);
        b
    }

    /// Sets the pattern.
    pub fn pattern(self, pattern: Pattern) -> (b: MaterialBuilder)
        ensures
            b == (MaterialBuilder { pattern: Some(pattern), ..self }),
    {
        let mut b = self;
        b.pattern = Some(pattern);
        b
    }

    /// Sets the reflective coefficient.
    pub fn reflective(self, reflective: Scalar) -> (b: MaterialBuilder)
        ensures
            b == (MaterialBuilder { reflective: Some(reflective), ..self }),
    {
        let mut b = self;
        b.reflective = Some(reflective);
        b
    }

    /// Sets the transparency.
    pub fn transparency(self, transparency: Scalar) -> (b: MaterialBuilder)
        ensures
            b == (MaterialBuilder { transparency: Some(transparency), ..self }),
    {
        let mut b = self;
        b.transparency = Some(transparency);
        b
    }

    /// Sets the refractive index.
    pub fn refractive_index(self, refractive_index: Scalar) -> (b: MaterialBuilder)
        ensures
            b == (MaterialBuilder { refractive_index: Some(refractive_index), ..self }),
    {
        let mut b = self;
        b.refractive_index = Some(refractive_index);
        b
    }

    /// The material with every field that was set, and the default of
    /// every other.
    pub fn build(self) -> (m: Material)
        ensures
            m.color == (match self.color {
                Some(c) => c,
                None => Color::from_keys(ONE_KEY, ONE_KEY, ONE_KEY),
            }),
            m.ambient == or_key(self.ambient, AMBIENT_KEY),
            m.diffuse == or_key(self.diffuse, DIFFUSE_KEY),
            m.specular == or_key(self.specular, DIFFUSE_KEY),
            m.shininess == or_key(self.shininess, SHININESS_KEY),
            m.pattern == self.pattern,
            m.reflective == or_key(self.reflective, ZERO_KEY),
            m.transparency == or_key(self.transparency, ZERO_KEY),
            m.refractive_index == or_key(self.refractive_index, ONE_KEY),
            self.is_empty() ==> m.has_default_coefficients() && m.pattern is None,
            (self.pattern matches Some(p) ==> p.well_formed()) ==> m.well_formed(),
    {
        let color = match self.color {
            Some(c) => c,
            None => Color::white(),
        };
        Material {
            color,
            ambient: scalar_or(self.ambient, AMBIENT_KEY),
            diffuse: scalar_or(self.diffuse, DIFFUSE_KEY),
            specular: scalar_or(self.specular, DIFFUSE_KEY),
            shininess: scalar_or(self.shininess, SHININESS_KEY),
            pattern: self.pattern,
            reflective: scalar_or(self.reflective, ZERO_KEY),
            transparency: scalar_or(self.transparency, ZERO_KEY),
            refractive_index: scalar_or(self.refractive_index, ONE_KEY),
        }
    }
}

} // verus!
