//! The state of one hit, prepared for shading.

use vstd::prelude::*;
use crate::containment::is_absent;
use crate::containment::is_position_of;
use crate::containment::media_at;
use crate::containment::media_at_position;
use crate::containment::Media;
use crate::intersection::Intersection;
use crate::object::Object;
use crate::point::Point;
use crate::ray::Ray;
use crate::scalar::Scalar;
use crate::scalar::ONE_KEY;
use crate::tuple::flipped;
use crate::tuple::Tuple;
use crate::vector::Vector;

verus! {

/// What shading needs to know of a hit.
#[derive(Clone, Copy, Debug, PartialEq, Eq, Structural)]
pub struct Computation {
    pub t: Scalar,
    pub object: usize,
    pub point: Point,
    pub over_point: Point,
    pub under_point: Point,
    pub eyev: Vector,
    pub normalv: Vector,
    pub inside: bool,
    pub reflectv: Vector,
    pub n1: Scalar,
    pub n2: Scalar,
}

/// A normal turned towards the eye, and whether it had to be turned.
#[derive(Clone, Copy, Debug, PartialEq, Eq, Structural)]
pub struct Facing {
    pub normalv: Vector,
    pub inside: bool,
}

/// The geometry of a hit that takes arithmetic: the point, the normal of
/// the surface there and its dot product with the eye vector, the point
/// nudged along the normal as turned towards the eye and against it, and
/// the direction of the ray mirrored at the surface.
#[derive(Clone, Copy, Debug, PartialEq, Eq, Structural)]
pub struct Surface {
    pub point: Point,
    pub normal: Vector,
    pub normal_dot_eye: Scalar,
    pub over_point: Point,
    pub under_point: Point,
    pub reflectv: Vector,
}

/// Which cosine Schlick's approximation of the reflectance takes.
#[derive(Clone, Copy, Debug, PartialEq, Eq, Structural)]
pub enum Fresnel {
    /// Total internal reflection: the reflectance is one.
    Total,
    /// The ray passes into the thinner medium: the cosine of the
    /// transmitted angle.
    Transmitted,
    /// The cosine of the incident angle.
    Incident,
}

/// The opposite of a vector, without a negative zero.
pub open spec fn opposite(v: Vector) -> Vector {
    Vector {
        position: Tuple {
            x: flipped(v.position.x),
            y: flipped(v.position.y),
            z: flipped(v.position.z),
        },
    }
}

/// The refractive index of a medium: that of the object that fills it, and
/// one for empty space.
pub open spec fn refractive_index_of(objects: Seq<Object>, medium: Option<usize>) -> Scalar {
    match medium {
        Some(o) => objects[o as int].material.refractive_index,
        None => Scalar { key: ONE_KEY },
    }
}

/// Every record names an object of the list.
pub open spec fn refers_into(xs: Seq<Intersection>, objects: Seq<Object>) -> bool {
    forall|k: int| 0 <= k < xs.len() ==> (#[trigger] xs[k]).object < objects.len()
}

/// The normal as seen from the eye: turned round, and the hit counted as
/// inside the object, where the normal points away from the eye.
pub open spec fn faced(normal: Vector, normal_dot_eye: Scalar) -> Facing {
    if normal_dot_eye.negative() {
        Facing { normalv: opposite(normal), inside: true }
    } else {
        Facing { normalv: normal, inside: false }
    }
}

/// The case of Schlick's approximation for a ray that passes from a medium
/// of index `n1` into one of index `n2`, where `sin2_t` is the squared sine
/// of the transmitted angle.
pub open spec fn fresnel_case(n1: Scalar, n2: Scalar, sin2_t: Scalar) -> Fresnel {
    if n2.less(n1) {
        if (Scalar { key: ONE_KEY }).less(sin2_t) {
            Fresnel::Total
        } else {
            Fresnel::Transmitted
        }
    } else {
        Fresnel::Incident
    }
}

/// `c` is the hit `i` of `ray` prepared for shading: it names the hit, its
/// eye vector is the opposite of the ray's direction, its normal is that of
/// `surface` turned towards the eye, with the hit counted as inside where
/// it had to be turned, the rest of its geometry is that of `surface`, and
/// its refractive indices are those of the media that
/// meet at the first position of the hit in `xs`, or of empty space where
/// `xs` does not hold the hit.
pub open spec fn prepared(
    c: Computation,
    ray: Ray,
    i: Intersection,
    xs: Seq<Intersection>,
    objects: Seq<Object>,
    surface: Surface,
) -> bool {
    &&& c.t == i.t
    &&& c.object == i.object
    &&& c.eyev == opposite(ray.direction)
    &&& c.point == surface.point
    &&& c.normalv == faced(surface.normal, surface.normal_dot_eye).normalv
    &&& c.inside == faced(surface.normal, surface.normal_dot_eye).inside
    &&& c.over_point == surface.over_point
    &&& c.under_point == surface.under_point
    &&& c.reflectv == surface.reflectv
    &&& forall|k: int| #[trigger]
        is_position_of(i, xs, k) ==> c.n1 == refractive_index_of(
            objects,
            media_at_position(xs, k).leaving,
        ) && c.n2 == refractive_index_of(objects, media_at_position(xs, k).entering)
    &&& is_absent(i, xs) ==> c.n1.key == ONE_KEY && c.n2.key == ONE_KEY
}

fn index_of_medium(objects: &Vec<Object>, medium: Option<usize>) -> (n: Scalar)
    requires
        medium matches Some(o) ==> o < objects@.len(),
    ensures
        n == refractive_index_of(objects@, medium),
{
    match medium {
        Some(o) => objects[o].material.refractive_index,
        None => Scalar::one(),
    }
}

impl Computation {
    /// Turns the surface normal towards the eye. `normal_dot_eye` is the
    /// dot product of the normal and the eye vector.
    pub fn face(normal: Vector, normal_dot_eye: Scalar) -> (f: Facing)
        ensures
            f == faced(normal, normal_dot_eye),
    {
        if normal_dot_eye.is_negative() {
            Facing { normalv: normal.neg(), inside: true }
        } else {
            Facing { normalv: normal, inside: false }
        }
    }

    /// Prepares the hit `i` of `ray` for shading. The eye vector is the
    /// opposite of the ray's direction. The refractive indices are those of
    /// the media that meet at the hit, found by walking `xs`, the sorted
    /// intersections of the ray, as a containment stack; a hit that `xs`
    /// does not hold lies in empty space on both sides. The normal of
    /// `surface` is turned towards the eye, and the hit counted as inside
    /// the object where it had to be turned; the rest of the geometry is
    /// taken from `surface` as it is.
    pub fn new(
        ray: &Ray,
        i: &Intersection,
        xs: &[Intersection],
        objects: &Vec<Object>,
        surface: &Surface,
    ) -> (c: Computation)
        requires
            refers_into(xs@, objects@),
        ensures
            prepared(c, *ray, *i, xs@, objects@, *surface),
    {
        let media: Media = media_at(i, xs);
        proof {
            if let Some(o) = media.leaving {
                let w = choose|w: int| 0 <= w < xs@.len() && (#[trigger] xs@[w]).object == o;
                assert(xs@[w].object < objects@.len());
            }
            if let Some(o) = media.entering {
                let w = choose|w: int| 0 <= w < xs@.len() && (#[trigger] xs@[w]).object == o;
                assert(xs@[w].object < objects@.len());
            }
        }
        let n1: Scalar = index_of_medium(objects, media.leaving);
        let n2: Scalar = index_of_medium(objects, media.entering);
        let facing: Facing = Computation::face(surface.normal, surface.normal_dot_eye);
        Computation {
            t: i.t,
            object: i.object,
            point: surface.point,
            over_point: surface.over_point,
            under_point: surface.under_point,
            eyev: ray.direction.neg(),
            normalv: facing.normalv,
            inside: facing.inside,
            reflectv: surface.reflectv,
            n1,
            n2,
        }
    }

    /// Decides the case of Schlick's approximation at this hit. `sin2_t`
    /// is the squared sine of the transmitted angle, the caller's
    /// arithmetic; it is looked at only where the ray passes into a thinner
    /// medium.
    pub fn shlick(&self, sin2_t: Scalar) -> (f: Fresnel)
        ensures
            f == fresnel_case(self.n1, self.n2, sin2_t),
    {
        if self.n2.is_less(self.n1) {
            if Scalar::one().is_less(sin2_t) {
                Fresnel::Total
            } else {
                Fresnel::Transmitted
            }
        } else {
            Fresnel::Incident
        }
    }
}

} // verus!
