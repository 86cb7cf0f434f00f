//! The geometric primitives, each in its own canonical frame, and the
//! selection steps of their intersection and normal algorithms.

use vstd::prelude::*;
use crate::point::Point;
use crate::ray::Ray;
use crate::scalar::Scalar;
use crate::scalar::EPSILON_KEY;
use crate::scalar::NEG_ONE_KEY;
use crate::scalar::ONE_KEY;
use crate::scalar::ZERO_KEY;
use crate::tuple::Tuple;
use crate::vector::Vector;

verus! {

/// The closed set of primitives. A cylinder and a cone carry the lower and
/// upper bound of their extent along `y`, and whether their ends are capped.
#[derive(Clone, Copy, Debug, PartialEq, Eq, Structural)]
pub enum Shape {
    Plane,
    Sphere,
    Cube,
    Cylinder(Scalar, Scalar, bool),
    Cone(Scalar, Scalar, bool),
}

impl Default for Shape {
    fn default() -> (s: Shape)
        ensures
            s == Shape::Sphere,
    {
        Shape::Sphere
    }
}

/// The interval of ray parameters in which a ray is between the two planes
/// of one axis of the cube.
#[derive(Clone, Copy, Debug, PartialEq, Eq, Structural)]
pub struct Span {
    pub tmin: Scalar,
    pub tmax: Scalar,
}

/// The unit vector along `y`.
pub open spec fn up() -> Vector {
    Vector {
        position: Tuple {
            x: Scalar { key: ZERO_KEY },
            y: Scalar { key: ONE_KEY },
            z: Scalar { key: ZERO_KEY },
        },
    }
}

/// The normal of the plane `y = 0`, the same at every point.
pub fn normal_at_plane() -> (n: Vector)
    ensures
        n == up(),
{
    Vector::new(Scalar::zero(), Scalar::one(), Scalar::zero())
}

/// Whether a ray runs alongside the plane `y = 0`: the `y` component of its
/// direction is within the tolerance of zero.
pub open spec fn is_parallel_to_plane(ray: Ray) -> bool {
    ray.direction.position.y.magnitude().less(Scalar { key: EPSILON_KEY })
}

/// Whether a ray misses the plane `y = 0` because it runs alongside it.
pub fn misses_plane(ray: &Ray) -> (r: bool)
    ensures
        r == is_parallel_to_plane(*ray),
{
    ray.direction.position.y.abs().is_less(Scalar::epsilon())
}

/// The largest of the three magnitudes of a point's coordinates.
pub open spec fn largest_magnitude(p: Point) -> Scalar {
    p.position.x.magnitude().larger(p.position.y.magnitude()).larger(p.position.z.magnitude())
}

/// The normal of the cube at a point of its surface: along the first axis,
/// in the order `x`, `y`, `z`, whose coordinate has the largest magnitude,
/// and as long as that coordinate.
pub open spec fn cube_normal(p: Point) -> Vector {
    let zero = Scalar { key: ZERO_KEY };
    let maxc = largest_magnitude(p);
    if maxc.equal(p.position.x.magnitude()) {
        Vector { position: Tuple { x: p.position.x, y: zero, z: zero } }
    } else if maxc.equal(p.position.y.magnitude()) {
        Vector { position: Tuple { x: zero, y: p.position.y, z: zero } }
    } else {
        Vector { position: Tuple { x: zero, y: zero, z: p.position.z } }
    }
}

/// The normal of the cube at a point of its surface.
pub fn normal_at_cube(object_point: &Point) -> (n: Vector)
    ensures
        n == cube_normal(*object_point),
{
    let x: Scalar = object_point.x();
    let y: Scalar = object_point.y();
    let z: Scalar = object_point.z();
    let maxc: Scalar = x.abs().max(y.abs()).max(z.abs());
    if maxc.is_equal(x.abs()) {
        Vector::new(x, Scalar::zero(), Scalar::zero())
    } else if maxc.is_equal(y.abs()) {
        Vector::new(Scalar::zero(), y, Scalar::zero())
    } else {
        Vector::new(Scalar::zero(), Scalar::zero(), z)
    }
}

/// The two parameters at which a ray meets the planes of one axis, in
/// ascending order.
pub open spec fn ordered_span(tmin: Scalar, tmax: Scalar) -> Span {
    if tmax.less(tmin) {
        Span { tmin: tmax, tmax: tmin }
    } else {
        Span { tmin, tmax }
    }
}

/// Orders the two parameters at which a ray meets the two planes of one
/// axis of the cube.
pub fn check_axis(tmin: Scalar, tmax: Scalar) -> (s: Span)
    ensures
        s == ordered_span(tmin, tmax),
{
    if tmax.is_less(tmin) {
        Span { tmin: tmax, tmax: tmin }
    } else {
        Span { tmin, tmax }
    }
}

/// Where the ray enters the cube: the largest of the three entries.
pub open spec fn cube_entry(x: Span, y: Span, z: Span) -> Scalar {
    x.tmin.larger(y.tmin.larger(z.tmin))
}

/// Where the ray leaves the cube: the smallest of the three exits.
pub open spec fn cube_exit(x: Span, y: Span, z: Span) -> Scalar {
    x.tmax.smaller(y.tmax.smaller(z.tmax))
}

/// Whether the three spans have a parameter in common that is not wholly
/// behind the ray's origin.
pub open spec fn cube_is_hit(x: Span, y: Span, z: Span) -> bool {
    !cube_exit(x, y, z).negative() && cube_entry(x, y, z).less_equal(cube_exit(x, y, z))
}

/// Intersects the three per-axis spans of a ray: the ray is inside the cube
/// from the last entry to the first exit. A miss where the first exit is
/// behind the origin or before the last entry.
pub fn intersect_cube(x: Span, y: Span, z: Span) -> (r: Option<Vec<Scalar>>)
    ensures
        cube_is_hit(x, y, z) <==> r is Some,
        r matches Some(ts) ==> ts@ == seq![cube_entry(x, y, z), cube_exit(x, y, z)],
{
    let tmax: Scalar = x.tmax.min(y.tmax.min(z.tmax));
    if tmax.is_negative() {
        return None;
    }
    let tmin: Scalar = x.tmin.max(y.tmin.max(z.tmin));
    if tmin.is_less_equal(tmax) {
        let mut ts: Vec<Scalar> = Vec::new();
        ts.push(tmin);
        ts.push(tmax);
        assert(ts@ =~= seq![tmin, tmax]);
        return Some(ts);
    }
    None
}

/// The roots of a ray on a shape as a sequence, `None` for a miss.
pub open spec fn roots_view(r: Option<Vec<Scalar>>) -> Option<Seq<Scalar>> {
    match r {
        Some(ts) => Some(ts@),
        None => None,
    }
}

/// The two roots of the quadratic of a ray and the unit sphere, or a miss
/// where its discriminant is below zero.
pub open spec fn sphere_roots(discriminant: Scalar, t1: Scalar, t2: Scalar) -> Option<Seq<Scalar>> {
    if discriminant.negative() {
        None
    } else {
        Some(seq![t1, t2])
    }
}

/// Decides whether a ray meets the unit sphere. The discriminant and the two
/// roots of the quadratic are the caller's arithmetic; the roots are looked
/// at only where the discriminant is not below zero.
pub fn intersect_sphere(discriminant: Scalar, t1: Scalar, t2: Scalar) -> (r: Option<Vec<Scalar>>)
    ensures
        roots_view(r) == sphere_roots(discriminant, t1, t2),
{
    if discriminant.is_negative() {
        return None;
    }
    let mut ts: Vec<Scalar> = Vec::new();
    ts.push(t1);
    ts.push(t2);
    assert(ts@ =~= seq![t1, t2]);
    Some(ts)
}

/// Where a ray meets the plane of an end cap: the ray parameter, the squared
/// distance from the axis there, and the squared radius of the cap.
#[derive(Clone, Copy, Debug, PartialEq, Eq, Structural)]
pub struct CapCrossing {
    pub t: Scalar,
    pub reach: Scalar,
    pub limit: Scalar,
}

/// Where a ray meets the side wall: the ray parameter, and the height `y`
/// of the ray there.
#[derive(Clone, Copy, Debug, PartialEq, Eq, Structural)]
pub struct WallCrossing {
    pub t: Scalar,
    pub y: Scalar,
}

/// The root of a crossing of a cap's plane, if it lies on the cap.
pub open spec fn on_cap(c: CapCrossing) -> Seq<Scalar> {
    if c.reach.less_equal(c.limit) {
        seq![c.t]
    } else {
        Seq::empty()
    }
}

/// The root of a crossing of the wall, if it lies strictly between the two
/// bounds.
pub open spec fn on_wall(minimum: Scalar, maximum: Scalar, c: WallCrossing) -> Seq<Scalar> {
    if minimum.less(c.y) && c.y.less(maximum) {
        seq![c.t]
    } else {
        Seq::empty()
    }
}

/// A sequence of roots as a result: a miss where there are none.
pub open spec fn some_if_any(ts: Seq<Scalar>) -> Option<Seq<Scalar>> {
    if ts.len() == 0 {
        None
    } else {
        Some(ts)
    }
}

/// The roots of a ray on the end caps: none where the shape is open or the
/// ray runs alongside the caps, else those of the lower and of the upper
/// cap, in this order.
pub open spec fn cap_roots(closed: bool, direction_y: Scalar, lower: CapCrossing, upper: CapCrossing) -> Option<
    Seq<Scalar>,
> {
    if !closed || direction_y.magnitude().less_equal(Scalar { key: EPSILON_KEY }) {
        None
    } else {
        some_if_any(on_cap(lower) + on_cap(upper))
    }
}

/// The roots in `caps`, or none.
pub open spec fn or_none(caps: Option<Seq<Scalar>>) -> Seq<Scalar> {
    match caps {
        Some(ts) => ts,
        None => Seq::empty(),
    }
}

/// The roots of a ray on a cylinder. A ray along the axis (`a` within the
/// tolerance of zero) can only meet the caps. Otherwise a discriminant
/// below zero is a miss, and else the roots are those on the wall between
/// the bounds, then those on the caps.
pub open spec fn cylinder_roots(
    minimum: Scalar,
    maximum: Scalar,
    a: Scalar,
    discriminant: Scalar,
    first: WallCrossing,
    second: WallCrossing,
    caps: Option<Seq<Scalar>>,
) -> Option<Seq<Scalar>> {
    if a.magnitude().less(Scalar { key: EPSILON_KEY }) {
        caps
    } else if discriminant.negative() {
        None
    } else {
        some_if_any(on_wall(minimum, maximum, first) + on_wall(minimum, maximum, second) + or_none(caps))
    }
}

/// The roots of a ray on a double cone. A ray parallel to one half (`a`
/// within the tolerance of zero and `b` not) crosses the wall once, at
/// `linear`. Otherwise a discriminant below zero is a miss, and else the
/// ray crosses the wall at `first` and `second`. Either way the roots are
/// those of the crossings of the wall that lie between the bounds, then
/// those on the caps.
pub open spec fn cone_roots(
    minimum: Scalar,
    maximum: Scalar,
    a: Scalar,
    b: Scalar,
    linear: WallCrossing,
    discriminant: Scalar,
    first: WallCrossing,
    second: WallCrossing,
    caps: Option<Seq<Scalar>>,
) -> Option<Seq<Scalar>> {
    let epsilon = Scalar { key: EPSILON_KEY };
    if a.magnitude().less_equal(epsilon) && epsilon.less_equal(b.magnitude()) {
        some_if_any(on_wall(minimum, maximum, linear) + or_none(caps))
    } else if discriminant.negative() {
        None
    } else {
        some_if_any(on_wall(minimum, maximum, first) + on_wall(minimum, maximum, second) + or_none(caps))
    }
}

fn check_cap(c: CapCrossing) -> (r: bool)
    ensures
        r == c.reach.less_equal(c.limit),
{
    c.reach.is_less_equal(c.limit)
}

/// Selects the roots of a ray on the end caps of a cylinder or a cone. The
/// two crossings of the caps' planes are the caller's arithmetic.
pub fn intersect_cap(closed: bool, direction_y: Scalar, lower: CapCrossing, upper: CapCrossing) -> (r:
    Option<Vec<Scalar>>)
    ensures
        roots_view(r) == cap_roots(closed, direction_y, lower, upper),
{
    if !closed || direction_y.abs().is_less_equal(Scalar::epsilon()) {
        return None;
    }
    let mut res: Vec<Scalar> = Vec::new();
    if check_cap(lower) {
        res.push(lower.t);
    }
    if check_cap(upper) {
        res.push(upper.t);
    }
    assert(res@ =~= on_cap(lower) + on_cap(upper));
    if res.len() == 0 {
        return None;
    }
    Some(res)
}

fn join_caps(wall: Vec<Scalar>, caps: Option<Vec<Scalar>>) -> (r: Option<Vec<Scalar>>)
    ensures
        roots_view(r) == some_if_any(wall@ + or_none(roots_view(caps))),
{
    let mut res = wall;
    match caps {
        Some(ts) => {
            let mut ts = ts;
            res.append(&mut ts);
        },
        None => {
            assert(res@ + Seq::<Scalar>::empty() =~= res@);
        },
    }
    if res.len() == 0 {
        return None;
    }
    Some(res)
}

fn wall_and_caps(
    minimum: Scalar,
    maximum: Scalar,
    first: WallCrossing,
    second: WallCrossing,
    caps: Option<Vec<Scalar>>,
) -> (r: Option<Vec<Scalar>>)
    ensures
        roots_view(r) == some_if_any(
            on_wall(minimum, maximum, first) + on_wall(minimum, maximum, second) + or_none(
                roots_view(caps),
            ),
        ),
{
    let mut res: Vec<Scalar> = Vec::new();
    if minimum.is_less(first.y) && first.y.is_less(maximum) {
        res.push(first.t);
    }
    if minimum.is_less(second.y) && second.y.is_less(maximum) {
        res.push(second.t);
    }
    assert(res@ =~= on_wall(minimum, maximum, first) + on_wall(minimum, maximum, second));
    join_caps(res, caps)
}

/// Selects the roots of a ray on a cylinder of radius one about the `y`
/// axis, bounded by `minimum` and `maximum`. The coefficient `a` and the
/// discriminant of the quadratic, the two crossings of the wall and the
/// roots on the caps are the caller's arithmetic.
pub fn intersect_cylinder(
    minimum: Scalar,
    maximum: Scalar,
    a: Scalar,
    discriminant: Scalar,
    first: WallCrossing,
    second: WallCrossing,
    caps: Option<Vec<Scalar>>,
) -> (r: Option<Vec<Scalar>>)
    ensures
        roots_view(r) == cylinder_roots(
            minimum,
            maximum,
            a,
            discriminant,
            first,
            second,
            roots_view(caps),
        ),
{
    if a.abs().is_less(Scalar::epsilon()) {
        return caps;
    }
    if discriminant.is_negative() {
        return None;
    }
    wall_and_caps(minimum, maximum, first, second, caps)
}

/// Selects the roots of a ray on a double cone about the `y` axis, bounded
/// by `minimum` and `maximum`. The coefficients `a` and `b` and the
/// discriminant of the quadratic, the crossing of the wall in the linear
/// case, the two crossings of the wall otherwise, and the roots on the
/// caps are the caller's arithmetic.
pub fn intersect_cone(
    minimum: Scalar,
    maximum: Scalar,
    a: Scalar,
    b: Scalar,
    linear: WallCrossing,
    discriminant: Scalar,
    first: WallCrossing,
    second: WallCrossing,
    caps: Option<Vec<Scalar>>,
) -> (r: Option<Vec<Scalar>>)
    ensures
        roots_view(r) == cone_roots(
            minimum,
            maximum,
            a,
            b,
            linear,
            discriminant,
            first,
            second,
            roots_view(caps),
        ),
{
    if a.abs().is_less_equal(Scalar::epsilon()) && Scalar::epsilon().is_less_equal(b.abs()) {
        let mut res: Vec<Scalar> = Vec::new();
        if minimum.is_less(linear.y) && linear.y.is_less(maximum) {
            res.push(linear.t);
        }
        assert(res@ =~= on_wall(minimum, maximum, linear));
        return join_caps(res, caps);
    }
    if discriminant.is_negative() {
        return None;
    }
    wall_and_caps(minimum, maximum, first, second, caps)
}

/// The unit vector against `y`.
pub open spec fn down() -> Vector {
    Vector {
        position: Tuple {
            x: Scalar { key: ZERO_KEY },
            y: Scalar { key: NEG_ONE_KEY },
            z: Scalar { key: ZERO_KEY },
        },
    }
}

/// Which part of a capped shape a surface point lies on.
#[derive(Clone, Copy, Debug, PartialEq, Eq, Structural)]
pub enum Face {
    UpperCap,
    LowerCap,
    Wall,
}

/// The part of a cylinder or cone that holds a point: a cap where the point
/// is within one of the axis (`dist`, its squared distance from the axis,
/// is below one) and at or beyond the band of that cap; else the wall. The
/// upper cap comes first.
pub open spec fn face_of(lower_band: Scalar, upper_band: Scalar, dist: Scalar, y: Scalar) -> Face {
    let one = Scalar { key: ONE_KEY };
    if dist.less(one) && upper_band.less_equal(y) {
        Face::UpperCap
    } else if dist.less(one) && y.less_equal(lower_band) {
        Face::LowerCap
    } else {
        Face::Wall
    }
}

fn face_at(lower_band: Scalar, upper_band: Scalar, dist: Scalar, y: Scalar) -> (f: Face)
    ensures
        f == face_of(lower_band, upper_band, dist, y),
{
    if dist.is_less(Scalar::one()) && upper_band.is_less_equal(y) {
        Face::UpperCap
    } else if dist.is_less(Scalar::one()) && y.is_less_equal(lower_band) {
        Face::LowerCap
    } else {
        Face::Wall
    }
}

/// The normal of a cylinder at a point of its surface: up or down on a cap,
/// and straight away from the axis on the wall.
pub open spec fn cylinder_normal(lower_band: Scalar, upper_band: Scalar, dist: Scalar, p: Point) -> Vector {
    match face_of(lower_band, upper_band, dist, p.position.y) {
        Face::UpperCap => up(),
        Face::LowerCap => down(),
        Face::Wall => Vector {
            position: Tuple { x: p.position.x, y: Scalar { key: ZERO_KEY }, z: p.position.z },
        },
    }
}

/// The normal of a double cone at a point of its surface: up or down on a
/// cap; on the wall away from the axis and, by `slope`, towards the apex
/// plane: against `y` above it, along `y` on and below it.
pub open spec fn cone_normal(
    lower_band: Scalar,
    upper_band: Scalar,
    dist: Scalar,
    slope: Scalar,
    p: Point,
) -> Vector {
    match face_of(lower_band, upper_band, dist, p.position.y) {
        Face::UpperCap => up(),
        Face::LowerCap => down(),
        Face::Wall => Vector {
            position: Tuple {
                x: p.position.x,
                y: if p.position.y.positive() {
                    slope.negation()
                } else {
                    slope
                },
                z: p.position.z,
            },
        },
    }
}

/// The normal of a cylinder at `object_point`. `lower_band` is the lower
/// bound plus the tolerance, `upper_band` the upper bound minus it, and
/// `dist` the squared distance of the point from the axis: the caller's
/// arithmetic.
pub fn normal_at_cylinder(lower_band: Scalar, upper_band: Scalar, dist: Scalar, object_point: &Point) -> (n:
    Vector)
    ensures
        n == cylinder_normal(lower_band, upper_band, dist, *object_point),
{
    match face_at(lower_band, upper_band, dist, object_point.y()) {
        Face::UpperCap => Vector::new(Scalar::zero(), Scalar::one(), Scalar::zero()),
        Face::LowerCap => Vector::new(Scalar::zero(), Scalar { key: NEG_ONE_KEY }, Scalar::zero()),
        Face::Wall => Vector::new(object_point.x(), Scalar::zero(), object_point.z()),
    }
}

/// The normal of a double cone at `object_point`. The bands and `dist` are
/// as for the cylinder, and `slope` is the root of `dist`: the caller's
/// arithmetic.
pub fn normal_at_cone(
    lower_band: Scalar,
    upper_band: Scalar,
    dist: Scalar,
    slope: Scalar,
    object_point: &Point,
) -> (n: Vector)
    ensures
        n == cone_normal(lower_band, upper_band, dist, slope, *object_point),
{
    match face_at(lower_band, upper_band, dist, object_point.y()) {
        Face::UpperCap => Vector::new(Scalar::zero(), Scalar::one(), Scalar::zero()),
        Face::LowerCap => Vector::new(Scalar::zero(), Scalar { key: NEG_ONE_KEY }, Scalar::zero()),
        Face::Wall => {
            let y: Scalar = if object_point.y().is_positive() {
                slope.negate()
            } else {
                slope
            };
            Vector::new(object_point.x(), y, object_point.z())
        },
    }
}

/// What the arithmetic of a shape yields for one ray: the numbers from
/// which the roots of the ray on the shape are selected.
#[derive(Clone, Copy, Debug, PartialEq, Eq, Structural)]
pub enum Crossings {
    /// The parameter at which the ray meets the plane `y = 0`.
    Plane { root: Scalar },
    /// The discriminant and the two roots of the quadratic of the ray and
    /// the unit sphere.
    Sphere { discriminant: Scalar, t1: Scalar, t2: Scalar },
    /// The spans of the ray between the planes of each axis of the cube.
    Cube { x: Span, y: Span, z: Span },
    /// The leading coefficient and the discriminant of the quadratic of the
    /// ray and the cylinder, its two crossings of the wall and of the
    /// planes of the caps.
    Cylinder {
        a: Scalar,
        discriminant: Scalar,
        first: WallCrossing,
        second: WallCrossing,
        lower: CapCrossing,
        upper: CapCrossing,
    },
    /// The two leading coefficients and the discriminant of the quadratic
    /// of the ray and the cone, its crossing of the wall in the linear
    /// case, and its crossings of the wall otherwise and of the planes of
    /// the caps.
    Cone {
        a: Scalar,
        b: Scalar,
        linear: WallCrossing,
        discriminant: Scalar,
        first: WallCrossing,
        second: WallCrossing,
        lower: CapCrossing,
        upper: CapCrossing,
    },
}

/// What the arithmetic yields for one surface point of a shape: the vector
/// from the origin to the point, the squared distance of the point from the
/// `y` axis and the root of it, and for a bounded shape the lower bound
/// plus the tolerance and the upper bound minus it.
#[derive(Clone, Copy, Debug, PartialEq, Eq, Structural)]
pub struct Bearings {
    pub radial: Vector,
    pub dist: Scalar,
    pub slope: Scalar,
    pub lower_band: Scalar,
    pub upper_band: Scalar,
}

/// The roots of a ray on the plane `y = 0`: none for a ray alongside it,
/// else the one root.
pub open spec fn plane_roots(ray: Ray, root: Scalar) -> Option<Seq<Scalar>> {
    if is_parallel_to_plane(ray) {
        None
    } else {
        Some(seq![root])
    }
}

impl Shape {
    /// The roots of a ray on the shape, selected from its crossings; none
    /// where the crossings are those of another kind of shape.
    pub open spec fn roots(&self, ray: Ray, crossings: Crossings) -> Option<Seq<Scalar>> {
        match (*self, crossings) {
            (Shape::Plane, Crossings::Plane { root }) => plane_roots(ray, root),
            (Shape::Sphere, Crossings::Sphere { discriminant, t1, t2 }) => sphere_roots(
                discriminant,
                t1,
                t2,
            ),
            (Shape::Cube, Crossings::Cube { x, y, z }) => if cube_is_hit(x, y, z) {
                Some(seq![cube_entry(x, y, z), cube_exit(x, y, z)])
            } else {
                None
            },
            (
                Shape::Cylinder(minimum, maximum, closed),
                Crossings::Cylinder { a, discriminant, first, second, lower, upper },
            ) => cylinder_roots(
                minimum,
                maximum,
                a,
                discriminant,
                first,
                second,
                cap_roots(closed, ray.direction.position.y, lower, upper),
            ),
            (
                Shape::Cone(minimum, maximum, closed),
                Crossings::Cone { a, b, linear, discriminant, first, second, lower, upper },
            ) => cone_roots(
                minimum,
                maximum,
                a,
                b,
                linear,
                discriminant,
                first,
                second,
                cap_roots(closed, ray.direction.position.y, lower, upper),
            ),
            _ => None,
        }
    }

    /// The normal of the shape at a point of its surface, by its bearings.
    pub open spec fn normal(&self, p: Point, bearings: Bearings) -> Vector {
        match *self {
            Shape::Plane => up(),
            Shape::Sphere => bearings.radial,
            Shape::Cube => cube_normal(p),
            Shape::Cylinder(_, _, _) => cylinder_normal(
                bearings.lower_band,
                bearings.upper_band,
                bearings.dist,
                p,
            ),
            Shape::Cone(_, _, _) => cone_normal(
                bearings.lower_band,
                bearings.upper_band,
                bearings.dist,
                bearings.slope,
                p,
            ),
        }
    }

    /// Selects the roots of a ray on the shape, in the shape's own frame,
    /// from the crossings that the caller's arithmetic found for the ray
    /// and this kind of shape. Crossings of another kind give no roots.
    pub fn intersect(&self, ray: &Ray, crossings: &Crossings) -> (r: Option<Vec<Scalar>>)
        ensures
            roots_view(r) == self.roots(*ray, *crossings),
    {
        match (self, crossings) {
            (Shape::Plane, Crossings::Plane { root }) => {
                if misses_plane(ray) {
                    None
                } else {
                    let mut ts: Vec<Scalar> = Vec::new();
                    ts.push(*root);
                    assert(ts@ =~= seq![*root]);
                    Some(ts)
                }
            },
            (Shape::Sphere, Crossings::Sphere { discriminant, t1, t2 }) => intersect_sphere(
                *discriminant,
                *t1,
                *t2,
            ),
            (Shape::Cube, Crossings::Cube { x, y, z }) => intersect_cube(*x, *y, *z),
            (
                Shape::Cylinder(minimum, maximum, closed),
                Crossings::Cylinder { a, discriminant, first, second, lower, upper },
            ) => {
                let caps = intersect_cap(*closed, ray.direction.y(), *lower, *upper);
                intersect_cylinder(*minimum, *maximum, *a, *discriminant, *first, *second, caps)
            },
            (
                Shape::Cone(minimum, maximum, closed),
                Crossings::Cone { a, b, linear, discriminant, first, second, lower, upper },
            ) => {
                let caps = intersect_cap(*closed, ray.direction.y(), *lower, *upper);
                intersect_cone(
                    *minimum,
                    *maximum,
                    *a,
                    *b,
                    *linear,
                    *discriminant,
                    *first,
                    *second,
                    caps,
                )
            },
            _ => None,
        }
    }

    /// The normal of the shape at a point of its surface, in the shape's
    /// own frame, from the bearings that the caller's arithmetic found for
    /// the point. A plane and a cube need none of them, a sphere the
    /// radial vector, a cylinder the bands and the distance, a cone the
    /// slope as well.
    pub fn normal_at(&self, object_point: &Point, bearings: &Bearings) -> (n: Vector)
        ensures
            n == self.normal(*object_point, *bearings),
    {
        match self {
            Shape::Plane => normal_at_plane(),
            Shape::Sphere => bearings.radial,
            Shape::Cube => normal_at_cube(object_point),
            Shape::Cylinder(_, _, _) => normal_at_cylinder(
                bearings.lower_band,
                bearings.upper_band,
                bearings.dist,
                object_point,
            ),
            Shape::Cone(_, _, _) => normal_at_cone(
                bearings.lower_band,
                bearings.upper_band,
                bearings.dist,
                bearings.slope,
                object_point,
            ),
        }
    }
}

/// A ray meets the sphere in no root or in two, which are the two roots of
/// the quadratic in the order in which they were found; the wall of a
/// cylinder in at most two and its caps in at most two; and every root on
/// the wall has its height strictly between the bounds.
pub proof fn law_root_counts(
    discriminant: Scalar,
    t1: Scalar,
    t2: Scalar,
    closed: bool,
    direction_y: Scalar,
    lower: CapCrossing,
    upper: CapCrossing,
    minimum: Scalar,
    maximum: Scalar,
    c: WallCrossing,
)
    ensures
        sphere_roots(discriminant, t1, t2) matches Some(ts) ==> ts.len() == 2 && ts[0] == t1
            && ts[1] == t2 && (t1.less_equal(t2) ==> ts[0].less_equal(ts[1])),
        cap_roots(closed, direction_y, lower, upper) matches Some(ts) ==> 1 <= ts.len() <= 2,
        !closed ==> cap_roots(closed, direction_y, lower, upper) is None,
        on_wall(minimum, maximum, c).len() <= 1,
        on_wall(minimum, maximum, c).len() == 1 ==> minimum.less(c.y) && c.y.less(maximum),
{
}

/// On a point whose coordinates are numbers, the normal of the cube is
/// along `x` exactly when no coordinate exceeds `x` in magnitude, along `y`
/// when `x` is exceeded and `z` does not exceed `y`, and along `z` otherwise.
pub proof fn law_cube_normal_axis(p: Point)
    requires
        !p.position.x.is_nan(),
        !p.position.y.is_nan(),
        !p.position.z.is_nan(),
    ensures
        ({
            let zero = Scalar { key: ZERO_KEY };
            let ax = p.position.x.magnitude();
            let ay = p.position.y.magnitude();
            let az = p.position.z.magnitude();
            let n = cube_normal(p).position;
            if ay.less_equal(ax) && az.less_equal(ax) {
                n == (Tuple { x: p.position.x, y: zero, z: zero })
            } else if az.less_equal(ay) {
                n == (Tuple { x: zero, y: p.position.y, z: zero })
            } else {
                n == (Tuple { x: zero, y: zero, z: p.position.z })
            }
        }),
{
}

/// A hit of the cube gives two roots in ascending order.
pub proof fn law_cube_roots_ordered(x: Span, y: Span, z: Span)
    requires
        cube_is_hit(x, y, z),
    ensures
        cube_entry(x, y, z).less_equal(cube_exit(x, y, z)),
        !cube_exit(x, y, z).is_nan(),
        !cube_entry(x, y, z).is_nan(),
{
}

} // verus!
