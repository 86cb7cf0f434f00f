//! The scene, and the decisions of the recursive shading algorithm.

use vstd::prelude::*;
use crate::color::Color;
use crate::computation::prepared;
use crate::computation::refers_into;
use crate::computation::Computation;
use crate::computation::Surface;
use crate::containment::is_absent;
use crate::containment::is_position_of;
use crate::containment::law_media_are_determined;
use crate::containment::same_crossing;
use crate::intersection::has_visible;
use crate::intersection::is_first_visible;
use crate::intersection::is_nearest_visible;
use crate::intersection::is_sorted;
use crate::intersection::is_stable_sort_of;
use crate::intersection::law_hit_after_sort;
use crate::intersection::law_hit_is_nearest;
use crate::intersection::law_sort_rearranges;
use crate::intersection::nearest;
use crate::intersection::sort_intersections;
use crate::intersection::tagged;
use crate::intersection::Intersection;
use crate::light::Light;
use crate::light::MINUS_TEN_KEY;
use crate::light::TEN_KEY;
use crate::material::Material;
use crate::material::AMBIENT_KEY;
use crate::material::SHININESS_KEY;
use crate::object::Object;
use crate::point::Point;
use crate::ray::Ray;
use crate::scalar::Scalar;
use crate::scalar::ONE_KEY;
use crate::scalar::ZERO_KEY;
use crate::shape::Shape;
use crate::transformations::l;
use crate::transformations::o;
use crate::transformations::scaling;
use crate::vector::Vector;

verus! {

/// Key of `0.2`.
pub const FIFTH_KEY: i64 = 0x3FC9_9999_9999_999A;

/// Key of `0.5`.
pub const HALF_KEY: i64 = 0x3FE0_0000_0000_0000;

/// Key of `0.6`.
pub const THREE_FIFTHS_KEY: i64 = 0x3FE3_3333_3333_3333;

/// Key of `0.7`.
pub const SEVEN_TENTHS_KEY: i64 = 0x3FE6_6666_6666_6666;

/// Key of `0.8`.
pub const FOUR_FIFTHS_KEY: i64 = 0x3FE9_9999_9999_999A;

/// Key of `2`.
pub const TWO_KEY: i64 = 0x4000_0000_0000_0000;

/// A half, as the layout of the default world writes it.
pub open spec fn half() -> Scalar {
    Scalar { key: HALF_KEY }
}

/// Two, as the layout of the default world writes it.
pub open spec fn two() -> Scalar {
    Scalar { key: TWO_KEY }
}

/// One light and the objects it shines on.
#[derive(Clone, Debug)]
pub struct World {
    pub light: Light,
    pub objects: Vec<Object>,
}

/// A secondary ray to follow: where it starts and runs, how many further
/// bounces it may take, and the weight of the colour it brings back.
#[derive(Clone, Copy, Debug, PartialEq, Eq, Structural)]
pub struct Bounce {
    pub ray: Ray,
    pub remaining: usize,
    pub weight: Scalar,
}

/// How the reflected and the refracted colour join the surface colour.
#[derive(Clone, Copy, Debug, PartialEq, Eq, Structural)]
pub enum Blend {
    /// All three are summed.
    Sum,
    /// The reflected colour is weighted by the reflectance and the
    /// refracted colour by what is left of one, then all are summed.
    Fresnel,
}

/// What a ray sees: all its intersections with the world, sorted by `t`,
/// and the hit among them.
#[derive(Clone, Debug)]
pub struct Sighting {
    pub hit: Intersection,
    pub xs: Vec<Intersection>,
}

/// How a hit is shaded: where the ray that tests for shadow starts, and how
/// the reflected and the refracted colour join the surface colour.
#[derive(Clone, Copy, Debug, PartialEq, Eq, Structural)]
pub struct Shading {
    pub shadow_origin: Point,
    pub blend: Blend,
}

/// The records of one object: its roots tagged with its position, none for
/// a miss.
pub open spec fn records_of(roots: Seq<Option<Vec<Scalar>>>, object: int) -> Seq<Intersection> {
    match roots[object] {
        Some(ts) => tagged(object as usize, ts@),
        None => Seq::empty(),
    }
}

/// The records of the first `n` objects, object by object.
pub open spec fn gathered(roots: Seq<Option<Vec<Scalar>>>, n: nat) -> Seq<Intersection>
    decreases n,
{
    if n == 0 {
        Seq::empty()
    } else {
        gathered(roots, (n - 1) as nat) + records_of(roots, n - 1)
    }
}

/// Some record lies in front of the origin and nearer than `distance`.
pub open spec fn blocks(xs: Seq<Intersection>, distance: Scalar) -> bool {
    exists|k: int| 0 <= k < xs.len() && (#[trigger] xs[k]).t.positive() && xs[k].t.less(distance)
}

/// `h` is the hit among the records `all`: the nearest record in front of
/// the origin.
pub open spec fn is_hit_of(h: Intersection, all: Seq<Intersection>) -> bool {
    exists|k: int| #[trigger] is_nearest_visible(all, k) && all[k] == h
}

/// The ray that leaves a hit along the mirrored direction, if the budget
/// and the material allow one.
pub open spec fn reflection(comps: Computation, reflective: Scalar, remaining: usize) -> Option<Bounce> {
    if remaining == 0 || reflective.equal(Scalar { key: ZERO_KEY }) {
        None
    } else {
        Some(
            Bounce {
                ray: Ray { origin: comps.over_point, direction: comps.reflectv },
                remaining: (remaining - 1) as usize,
                weight: reflective,
            },
        )
    }
}

/// The ray that passes through the surface at a hit, if the budget and the
/// material allow one and the light is not wholly reflected back.
pub open spec fn refraction(
    comps: Computation,
    transparency: Scalar,
    remaining: usize,
    sin2_t: Scalar,
    direction: Vector,
) -> Option<Bounce> {
    if transparency.equal(Scalar { key: ZERO_KEY }) || remaining == 0 || (Scalar { key: ONE_KEY }).less(
        sin2_t,
    ) {
        None
    } else {
        Some(
            Bounce {
                ray: Ray { origin: comps.under_point, direction },
                remaining: (remaining - 1) as usize,
                weight: transparency,
            },
        )
    }
}

impl World {
    /// `s` is what a ray with the given roots on each object sees: the
    /// stable sort of all its records, each of an object of this world, and
    /// the hit, which is the nearest record in front among them and the
    /// first record in front of the sorted list.
    pub open spec fn sees(&self, roots: Seq<Option<Vec<Scalar>>>, s: Sighting) -> bool {
        &&& is_stable_sort_of(s.xs@, gathered(roots, roots.len()))
        &&& is_sorted(s.xs@)
        &&& refers_into(s.xs@, self.objects@)
        &&& is_hit_of(s.hit, gathered(roots, roots.len()))
        &&& exists|i: int| #[trigger] is_first_visible(s.xs@, i) && s.xs@[i] == s.hit
        &&& s.hit.object < self.objects@.len()
    }

    /// Every object is well formed.
    pub open spec fn well_formed(&self) -> bool {
        forall|k: int| 0 <= k < self.objects@.len() ==> (#[trigger] self.objects@[k]).well_formed()
    }

    /// A world with a light and no objects.
    pub fn new(light: Light) -> (w: World)
        ensures
            w.light == light,
            w.objects@.len() == 0,
            w.well_formed(),
    {
        World { light, objects: Vec::new() }
    }

    /// Appends the objects in their order.
    pub fn add_shapes(&mut self, objects: Vec<Object>)
        ensures
            final(self).light == old(self).light,
            final(self).objects@ == old(self).objects@ + objects@,
    {
        let mut objects = objects;
        self.objects.append(&mut objects);
    }

    /// Appends one object.
    pub fn add_shape(&mut self, object: Object)
        ensures
            final(self).light == old(self).light,
            final(self).objects@ == old(self).objects@.push(object),
    {
        self.objects.push(object)
    }

    /// Joins the roots that a ray has on each object, `roots[k]` being those
    /// on object `k`, into one list of records sorted by `t`. No records at
    /// all give `None`.
    pub fn intersect(&self, roots: &Vec<Option<Vec<Scalar>>>) -> (r: Option<Vec<Intersection>>)
        requires
            roots@.len() == self.objects@.len(),
        ensures
            r is None <==> gathered(roots@, roots@.len()).len() == 0,
            r matches Some(xs) ==> is_stable_sort_of(xs@, gathered(roots@, roots@.len()))
                && is_sorted(xs@) && refers_into(xs@, self.objects@),
    {
        let mut result: Vec<Intersection> = Vec::new();
        let mut k: usize = 0;
        while k < roots.len()
            invariant
                k <= roots@.len(),
                result@ == gathered(roots@, k as nat),
                forall|j: int| 0 <= j < result@.len() ==> (#[trigger] result@[j]).object < k,
            decreases roots@.len() - k,
        {
            match Intersection::intersects(k, &roots[k]) {
                Some(ixs) => {
                    let mut ixs = ixs;
                    result.append(&mut ixs);
                },
                None => {
                    assert(result@ + Seq::<Intersection>::empty() =~= result@);
                },
            }
            k += 1;
        }
        if result.len() == 0 {
            return None;
        }
        let ghost all = result@;
        sort_intersections(result.as_mut_slice());
        proof {
            law_sort_rearranges(all, result@);
            assert forall|j: int| 0 <= j < result@.len() implies (#[trigger] result@[j]).object
                < self.objects@.len() by {
                assert(all.contains(result@[j]));
                let k = choose|k: int| 0 <= k < all.len() && all[k] == result@[j];
                assert(all[k].object < self.objects@.len());
            }
        }
        Some(result)
    }

    /// What a ray sees, given its roots on each object: its sorted
    /// intersections, and among them the hit, the nearest record in front
    /// of its origin. `None` where the ray meets nothing in front of its
    /// origin, which gives a black pixel.
    pub fn color_at(&self, roots: &Vec<Option<Vec<Scalar>>>) -> (r: Option<Sighting>)
        requires
            roots@.len() == self.objects@.len(),
        ensures
            r is None <==> !has_visible(gathered(roots@, roots@.len())),
            r matches Some(s) ==> self.sees(roots@, s),
    {
        let ghost all = gathered(roots@, roots@.len());
        match self.intersect(roots) {
            Some(ixs) => {
                let ghost sorted = ixs@;
                match nearest(ixs.as_slice()) {
                    Some(h) => {
                        proof {
                            let i = choose|i: int| is_nearest_visible(sorted, i) && sorted[i] == h;
                            law_hit_is_nearest(sorted, i);
                            law_hit_after_sort(all, sorted, i);
                            assert(is_first_visible(sorted, i) && sorted[i] == h);
                        }
                        Some(Sighting { hit: h, xs: ixs })
                    },
                    None => {
                        proof {
                            law_sort_rearranges(all, sorted);
                        }
                        None
                    },
                }
            },
            None => None,
        }
    }

    /// Prepares the hit of a sighting for shading, from the whole sorted
    /// list of the sighting: the refractive indices are those of the media
    /// that the containment stack of that list gives at the hit. The
    /// geometry of the hit is taken from `surface`.
    pub fn prepare(&self, ray: &Ray, sighting: &Sighting, surface: &Surface) -> (c: Computation)
        requires
            refers_into(sighting.xs@, self.objects@),
        ensures
            prepared(c, *ray, sighting.hit, sighting.xs@, self.objects@, *surface),
    {
        Computation::new(ray, &sighting.hit, sighting.xs.as_slice(), &self.objects, surface)
    }

    /// Whether something stands between a point and the light. `roots` are
    /// the roots on each object of the ray from the point towards the light,
    /// and `distance` is how far the light is.
    pub fn is_shadowed(&self, roots: &Vec<Option<Vec<Scalar>>>, distance: Scalar) -> (r: bool)
        requires
            roots@.len() == self.objects@.len(),
        ensures
            r == blocks(gathered(roots@, roots@.len()), distance),
    {
        let ghost all = gathered(roots@, roots@.len());
        match self.color_at(roots) {
            Some(s) => {
                let h: Intersection = s.hit;
                proof {
                    let k = choose|k: int| is_nearest_visible(all, k) && all[k] == h;
                    if blocks(all, distance) {
                        let j = choose|j: int|
                            0 <= j < all.len() && (#[trigger] all[j]).t.positive() && all[j].t.less(
                                distance,
                            );
                        assert(h.t.less_equal(all[j].t));
                    }
                    if h.t.less(distance) {
                        assert(all[k].t.positive() && all[k].t.less(distance));
                    }
                }
                h.t.is_less(distance)
            },
            None => {
                proof {
                    if blocks(all, distance) {
                        let k = choose|k: int|
                            0 <= k < all.len() && (#[trigger] all[k]).t.positive() && all[k].t.less(
                                distance,
                            );
                        assert(has_visible(all));
                    }
                }
                false
            },
        }
    }

    /// Decides how a hit is shaded. The ray that tests for shadow starts at
    /// the over point, so that the surface does not shade itself. The
    /// colours are joined by the reflectance where the material both
    /// reflects and lets light through, else by a plain sum.
    pub fn shade_hit(&self, comps: &Computation) -> (s: Shading)
        requires
            comps.object < self.objects@.len(),
        ensures
            s.shadow_origin == comps.over_point,
            s.blend == (if self.objects@[comps.object as int].material.reflective.positive()
                && self.objects@[comps.object as int].material.transparency.positive() {
                Blend::Fresnel
            } else {
                Blend::Sum
            }),
    {
        let material: &Material = &self.objects[comps.object].material;
        let blend: Blend = if material.reflective.is_positive()
            && material.transparency.is_positive() {
            Blend::Fresnel
        } else {
            Blend::Sum
        };
        Shading { shadow_origin: comps.over_point, blend }
    }

    /// The reflected ray to follow from a hit. `None`, a black
    /// contribution, where no bounce is left or the material does not
    /// reflect; else the ray from the over point along the mirrored
    /// direction, with one bounce less and the reflective coefficient as
    /// weight.
    pub fn reflected_color(&self, comps: &Computation, remaining: usize) -> (r: Option<Bounce>)
        requires
            comps.object < self.objects@.len(),
        ensures
            r == reflection(
                *comps,
                self.objects@[comps.object as int].material.reflective,
                remaining,
            ),
    {
        if remaining == 0 {
            return None;
        }
        let reflective: Scalar = self.objects[comps.object].material.reflective;
        if reflective.is_equal(Scalar::zero()) {
            return None;
        }
        Some(
            Bounce {
                ray: Ray::new(comps.over_point, comps.reflectv),
                remaining: remaining - 1,
                weight: reflective,
            },
        )
    }

    /// The refracted ray to follow from a hit. `sin2_t`, the squared sine of
    /// the transmitted angle, and `direction`, the refracted direction, are
    /// the caller's arithmetic. `None`, a black contribution, where the
    /// material is opaque, no bounce is left, or the light is wholly
    /// reflected back; else the ray from the under point along `direction`,
    /// with one bounce less and the transparency as weight.
    pub fn refracted_color(
        &self,
        comps: &Computation,
        remaining: usize,
        sin2_t: Scalar,
        direction: Vector,
    ) -> (r: Option<Bounce>)
        requires
            comps.object < self.objects@.len(),
        ensures
            r == refraction(
                *comps,
                self.objects@[comps.object as int].material.transparency,
                remaining,
                sin2_t,
                direction,
            ),
    {
        let transparency: Scalar = self.objects[comps.object].material.transparency;
        if transparency.is_equal(Scalar::zero()) || remaining == 0 {
            return None;
        }
        if Scalar::one().is_less(sin2_t) {
            return None;
        }
        Some(
            Bounce {
                ray: Ray::new(comps.under_point, direction),
                remaining: remaining - 1,
                weight: transparency,
            },
        )
    }
}

impl Default for World {
    /// A white light at `(-10, 10, -10)` and two spheres about the origin:
    /// one of radius one, coloured `(0.8, 1.0, 0.6)` with diffuse `0.7` and
    /// specular `0.2`, and one of radius a half, of the default material.
    fn default() -> (w: World)
        ensures
            w.well_formed(),
            w.light.position == Point::from_keys(MINUS_TEN_KEY, TEN_KEY, MINUS_TEN_KEY),
            w.light.intensity == Color::from_keys(ONE_KEY, ONE_KEY, ONE_KEY),
            w.objects@.len() == 2,
            w.objects@[0].shape == Shape::Sphere,
            w.objects@[0].is_untransformed(),
            w.objects@[0].material.color == Color::from_keys(
                FOUR_FIFTHS_KEY,
                ONE_KEY,
                THREE_FIFTHS_KEY,
            ),
            w.objects@[0].material.diffuse.key == SEVEN_TENTHS_KEY,
            w.objects@[0].material.specular.key == FIFTH_KEY,
            w.objects@[0].material.ambient.key == AMBIENT_KEY,
            w.objects@[0].material.shininess.key == SHININESS_KEY,
            w.objects@[0].material.pattern is None,
            w.objects@[0].material.reflective.key == ZERO_KEY,
            w.objects@[0].material.transparency.key == ZERO_KEY,
            w.objects@[0].material.refractive_index.key == ONE_KEY,
            w.objects@[1].shape == Shape::Sphere,
            w.objects@[1].material.has_default_coefficients(),
            w.objects@[1].material.pattern is None,
            w.objects@[1].transformation.has_rows(
                seq![
                    seq![half(), o(), o(), o()],
                    seq![o(), half(), o(), o()],
                    seq![o(), o(), half(), o()],
                    seq![o(), o(), o(), l()],
                ],
            ),
            w.objects@[1].transformation_inverse.has_rows(
                seq![
                    seq![two(), o(), o(), o()],
                    seq![o(), two(), o(), o()],
                    seq![o(), o(), two(), o()],
                    seq![o(), o(), o(), l()],
                ],
            ),
    {
        let mut w = World::new(
            Light::new(
                Point::new(
                    Scalar { key: MINUS_TEN_KEY },
                    Scalar { key: TEN_KEY },
                    Scalar { key: MINUS_TEN_KEY },
                ),
                Color::white(),
            ),
        );
        let mut outer = Material::default();
        outer.color = Color::new(
            Scalar { key: FOUR_FIFTHS_KEY },
            Scalar::one(),
            Scalar { key: THREE_FIFTHS_KEY },
        );
        outer.diffuse = Scalar { key: SEVEN_TENTHS_KEY };
        outer.specular = Scalar { key: FIFTH_KEY };
        let s1 = Object::sphere_builder().material(outer).build();
        let half = Scalar { key: HALF_KEY };
        let two = Scalar { key: TWO_KEY };
        let s2 = Object::sphere_builder().transformation(
            scaling(half, half, half),
            scaling(two, two, two),
        ).build();
        w.add_shape(s1);
        w.add_shape(s2);
        w
    }
}

/// The list of a sighting holds its hit, so the hit is prepared with the
/// media that the list gives at it, not with empty space.
pub proof fn law_sighting_holds_its_hit(w: World, roots: Seq<Option<Vec<Scalar>>>, s: Sighting)
    requires
        w.sees(roots, s),
    ensures
        !is_absent(s.hit, s.xs@),
        exists|k: int| is_position_of(s.hit, s.xs@, k),
{
    let i = choose|i: int| #[trigger] is_first_visible(s.xs@, i) && s.xs@[i] == s.hit;
    assert(same_crossing(s.hit, s.xs@[i]));
    law_media_are_determined(s.hit, s.xs@);
}

/// The budget of bounces runs out: a ray that is followed has strictly
/// fewer bounces left than the hit it leaves, and a hit with none left is
/// followed by no ray, whatever the material.
pub proof fn law_bounces_run_out(
    comps: Computation,
    reflective: Scalar,
    transparency: Scalar,
    remaining: usize,
    sin2_t: Scalar,
    direction: Vector,
)
    ensures
        reflection(comps, reflective, remaining) matches Some(b) ==> b.remaining < remaining,
        refraction(comps, transparency, remaining, sin2_t, direction) matches Some(b)
            ==> b.remaining < remaining,
        remaining == 0 ==> reflection(comps, reflective, remaining) is None && refraction(
            comps,
            transparency,
            remaining,
            sin2_t,
            direction,
        ) is None,
{
}

} // verus!
