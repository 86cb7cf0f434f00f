use rt_new::point::Point;
use rt_new::ray::Ray;
use rt_new::scalar::Scalar;
use rt_new::shape::check_axis;
use rt_new::shape::intersect_cap;
use rt_new::shape::intersect_cone;
use rt_new::shape::intersect_cube;
use rt_new::shape::intersect_cylinder;
use rt_new::shape::intersect_sphere;
use rt_new::shape::misses_plane;
use rt_new::shape::normal_at_cone;
use rt_new::shape::normal_at_cube;
use rt_new::shape::normal_at_cylinder;
use rt_new::shape::normal_at_plane;
use rt_new::shape::Bearings;
use rt_new::shape::CapCrossing;
use rt_new::shape::Crossings;
use rt_new::shape::Shape;
use rt_new::shape::Span;
use rt_new::shape::WallCrossing;
use rt_new::vector::Vector;

fn scalar(x: f64) -> Scalar {
    Scalar::from_bits(x.to_bits())
}

fn point(x: f64, y: f64, z: f64) -> Point {
    Point::new(scalar(x), scalar(y), scalar(z))
}

fn vector(x: f64, y: f64, z: f64) -> Vector {
    Vector::new(scalar(x), scalar(y), scalar(z))
}

fn roots(ts: &[f64]) -> Option<Vec<Scalar>> {
    Some(ts.iter().map(|t| scalar(*t)).collect())
}

fn span(tmin: f64, tmax: f64) -> Span {
    Span { tmin: scalar(tmin), tmax: scalar(tmax) }
}

fn cap(t: f64, reach: f64, limit: f64) -> CapCrossing {
    CapCrossing { t: scalar(t), reach: scalar(reach), limit: scalar(limit) }
}

fn wall(t: f64, y: f64) -> WallCrossing {
    WallCrossing { t: scalar(t), y: scalar(y) }
}

fn along(y: f64) -> Ray {
    Ray::new(point(0.0, 1.0, 0.0), vector(1.0, y, 0.0))
}

#[test]
fn plane_normal_points_up() {
    assert_eq!(normal_at_plane(), vector(0.0, 1.0, 0.0));
}

#[test]
fn a_ray_alongside_the_plane_misses() {
    assert!(misses_plane(&along(0.0)));
    assert!(misses_plane(&along(-0.0)));
    assert!(misses_plane(&along(9.9e-8)));
    assert!(misses_plane(&along(-9.9e-8)));
    assert!(!misses_plane(&along(1.0e-7)));
    assert!(!misses_plane(&along(-1.0e-7)));
    assert!(!misses_plane(&along(1.0)));
    assert!(!misses_plane(&along(f64::NAN)));
}

#[test]
fn sphere_has_no_root_or_two() {
    assert_eq!(intersect_sphere(scalar(-1.0), scalar(1.0), scalar(2.0)), None);
    assert_eq!(intersect_sphere(scalar(-1.0e-300), scalar(1.0), scalar(2.0)), None);
    assert_eq!(intersect_sphere(scalar(0.0), scalar(5.0), scalar(5.0)), roots(&[5.0, 5.0]));
    assert_eq!(intersect_sphere(scalar(-0.0), scalar(5.0), scalar(5.0)), roots(&[5.0, 5.0]));
    assert_eq!(intersect_sphere(scalar(4.0), scalar(4.0), scalar(6.0)), roots(&[4.0, 6.0]));
    assert_eq!(intersect_sphere(scalar(4.0), scalar(-6.0), scalar(-4.0)), roots(&[-6.0, -4.0]));
}

#[test]
fn axis_crossings_come_in_ascending_order() {
    assert_eq!(check_axis(scalar(4.0), scalar(6.0)), span(4.0, 6.0));
    assert_eq!(check_axis(scalar(6.0), scalar(4.0)), span(4.0, 6.0));
    assert_eq!(check_axis(scalar(3.0), scalar(3.0)), span(3.0, 3.0));
    assert_eq!(
        check_axis(scalar(f64::INFINITY), scalar(f64::NEG_INFINITY)),
        span(f64::NEG_INFINITY, f64::INFINITY)
    );
    assert_eq!(check_axis(scalar(0.0), scalar(-0.0)), span(0.0, -0.0));
}

#[test]
fn cube_is_met_from_the_last_entry_to_the_first_exit() {
    let wide = span(f64::NEG_INFINITY, f64::INFINITY);
    assert_eq!(intersect_cube(span(4.0, 6.0), wide, wide), roots(&[4.0, 6.0]));
    assert_eq!(intersect_cube(span(1.0, 9.0), span(2.0, 8.0), span(3.0, 7.0)), roots(&[3.0, 7.0]));
    assert_eq!(intersect_cube(span(-1.0, 1.0), wide, wide), roots(&[-1.0, 1.0]));
    assert_eq!(intersect_cube(span(2.0, 2.0), wide, wide), roots(&[2.0, 2.0]));
    assert_eq!(intersect_cube(span(-3.0, 0.0), wide, wide), roots(&[-3.0, 0.0]));
}

#[test]
fn cube_is_missed_behind_the_origin_or_where_the_spans_part() {
    let wide = span(f64::NEG_INFINITY, f64::INFINITY);
    assert_eq!(intersect_cube(span(-6.0, -4.0), wide, wide), None);
    assert_eq!(intersect_cube(span(1.0, 2.0), span(3.0, 4.0), wide), None);
    assert_eq!(intersect_cube(span(1.0, 5.0), span(2.0, 6.0), span(5.5, 9.0)), None);
}

#[test]
fn cube_normal_follows_the_largest_coordinate() {
    let cases = [
        (point(1.0, 0.5, -0.8), vector(1.0, 0.0, 0.0)),
        (point(-1.0, -0.2, 0.9), vector(-1.0, 0.0, 0.0)),
        (point(-0.4, 1.0, -0.1), vector(0.0, 1.0, 0.0)),
        (point(0.3, -1.0, -0.7), vector(0.0, -1.0, 0.0)),
        (point(-0.6, 0.3, 1.0), vector(0.0, 0.0, 1.0)),
        (point(0.4, 0.4, -1.0), vector(0.0, 0.0, -1.0)),
        (point(1.0, 1.0, 1.0), vector(1.0, 0.0, 0.0)),
        (point(-1.0, -1.0, -1.0), vector(-1.0, 0.0, 0.0)),
        (point(0.5, -1.0, 1.0), vector(0.0, -1.0, 0.0)),
        (point(0.0, 0.0, 0.0), vector(0.0, 0.0, 0.0)),
    ];
    for (p, normal) in cases {
        assert_eq!(normal_at_cube(&p), normal);
    }
}

#[test]
fn caps_are_met_within_their_radius() {
    let inside = cap(1.0, 0.25, 1.0);
    let edge = cap(2.0, 1.0, 1.0);
    let outside = cap(3.0, 1.0000001, 1.0);
    assert_eq!(intersect_cap(true, scalar(1.0), inside, edge), roots(&[1.0, 2.0]));
    assert_eq!(intersect_cap(true, scalar(-1.0), edge, inside), roots(&[2.0, 1.0]));
    assert_eq!(intersect_cap(true, scalar(1.0), inside, outside), roots(&[1.0]));
    assert_eq!(intersect_cap(true, scalar(1.0), outside, edge), roots(&[2.0]));
    assert_eq!(intersect_cap(true, scalar(1.0), outside, outside), None);
    assert_eq!(intersect_cap(true, scalar(1.0), cap(1.0, f64::NAN, 1.0), outside), None);
}

#[test]
fn caps_are_not_met_on_an_open_shape_or_alongside() {
    let inside = cap(1.0, 0.25, 1.0);
    assert_eq!(intersect_cap(false, scalar(1.0), inside, inside), None);
    assert_eq!(intersect_cap(true, scalar(0.0), inside, inside), None);
    assert_eq!(intersect_cap(true, scalar(1.0e-7), inside, inside), None);
    assert_eq!(intersect_cap(true, scalar(-1.0e-7), inside, inside), None);
    assert_eq!(intersect_cap(true, scalar(1.1e-7), inside, inside), roots(&[1.0, 1.0]));
    assert_eq!(intersect_cap(true, scalar(f64::NAN), inside, inside), roots(&[1.0, 1.0]));
}

#[test]
fn cylinder_wall_is_met_strictly_between_the_bounds() {
    let (lo, hi) = (scalar(1.0), scalar(2.0));
    let hit = |first: WallCrossing, second: WallCrossing| {
        intersect_cylinder(lo, hi, scalar(1.0), scalar(4.0), first, second, None)
    };
    assert_eq!(hit(wall(4.0, 1.5), wall(6.0, 1.5)), roots(&[4.0, 6.0]));
    assert_eq!(hit(wall(4.0, 1.0), wall(6.0, 1.5)), roots(&[6.0]));
    assert_eq!(hit(wall(4.0, 1.5), wall(6.0, 2.0)), roots(&[4.0]));
    assert_eq!(hit(wall(4.0, 0.5), wall(6.0, 2.5)), None);
    assert_eq!(hit(wall(4.0, f64::NAN), wall(6.0, 1.5)), roots(&[6.0]));
}

#[test]
fn cylinder_roots_are_those_of_the_wall_then_those_of_the_caps() {
    let (lo, hi) = (scalar(1.0), scalar(2.0));
    assert_eq!(
        intersect_cylinder(lo, hi, scalar(1.0), scalar(4.0), wall(4.0, 1.5), wall(6.0, 3.0), roots(&[9.0, 8.0])),
        roots(&[4.0, 9.0, 8.0])
    );
    assert_eq!(
        intersect_cylinder(lo, hi, scalar(1.0), scalar(0.0), wall(4.0, 0.0), wall(6.0, 3.0), roots(&[9.0])),
        roots(&[9.0])
    );
}

#[test]
fn a_ray_along_the_axis_of_a_cylinder_meets_the_caps_alone() {
    let (lo, hi) = (scalar(1.0), scalar(2.0));
    assert_eq!(
        intersect_cylinder(lo, hi, scalar(0.0), scalar(4.0), wall(4.0, 1.5), wall(6.0, 1.5), roots(&[9.0])),
        roots(&[9.0])
    );
    assert_eq!(
        intersect_cylinder(lo, hi, scalar(9.9e-8), scalar(4.0), wall(4.0, 1.5), wall(6.0, 1.5), None),
        None
    );
    assert_eq!(
        intersect_cylinder(lo, hi, scalar(1.0e-7), scalar(4.0), wall(4.0, 1.5), wall(6.0, 1.5), None),
        roots(&[4.0, 6.0])
    );
}

#[test]
fn a_discriminant_below_zero_misses_the_cylinder_caps_and_all() {
    let (lo, hi) = (scalar(1.0), scalar(2.0));
    assert_eq!(
        intersect_cylinder(lo, hi, scalar(1.0), scalar(-1.0), wall(4.0, 1.5), wall(6.0, 1.5), roots(&[9.0])),
        None
    );
}

#[test]
fn a_ray_parallel_to_one_half_of_a_cone_has_one_root_on_the_wall() {
    let (lo, hi) = (scalar(-1.0), scalar(1.0));
    assert_eq!(
        intersect_cone(lo, hi, scalar(0.0), scalar(2.0), wall(0.35, 0.25), scalar(-1.0), wall(4.0, 0.0), wall(6.0, 0.0), None),
        roots(&[0.35])
    );
    assert_eq!(
        intersect_cone(lo, hi, scalar(1.0e-7), scalar(-1.0e-7), wall(0.35, 0.25), scalar(4.0), wall(4.0, 0.0), wall(6.0, 0.0), roots(&[7.0])),
        roots(&[0.35, 7.0])
    );
}

#[test]
fn other_rays_meet_a_cone_as_they_meet_a_cylinder() {
    let (lo, hi) = (scalar(-1.0), scalar(1.0));
    assert_eq!(
        intersect_cone(lo, hi, scalar(1.0), scalar(2.0), wall(0.35, 0.0), scalar(4.0), wall(4.0, 0.5), wall(6.0, 1.0), roots(&[7.0])),
        roots(&[4.0, 7.0])
    );
    assert_eq!(
        intersect_cone(lo, hi, scalar(0.0), scalar(0.0), wall(0.35, 0.0), scalar(4.0), wall(4.0, 0.5), wall(6.0, 0.5), None),
        roots(&[4.0, 6.0])
    );
    assert_eq!(
        intersect_cone(lo, hi, scalar(1.0), scalar(2.0), wall(0.35, 0.0), scalar(-4.0), wall(4.0, 0.5), wall(6.0, 0.5), roots(&[7.0])),
        None
    );
    assert_eq!(
        intersect_cone(lo, hi, scalar(1.0), scalar(2.0), wall(0.35, 0.0), scalar(4.0), wall(4.0, 5.0), wall(6.0, 5.0), None),
        None
    );
}

#[test]
fn cylinder_normal_on_caps_and_wall() {
    let (lower_band, upper_band) = (scalar(1.0 + 1.0e-7), scalar(2.0 - 1.0e-7));
    let at = |p: Point, dist: f64| normal_at_cylinder(lower_band, upper_band, scalar(dist), &p);
    assert_eq!(at(point(0.5, 2.0, 0.0), 0.25), vector(0.0, 1.0, 0.0));
    assert_eq!(at(point(0.5, 1.0, 0.0), 0.25), vector(0.0, -1.0, 0.0));
    assert_eq!(at(point(1.0, 1.5, 0.0), 1.0), vector(1.0, 0.0, 0.0));
    assert_eq!(at(point(1.0, 2.0, 0.0), 1.0), vector(1.0, 0.0, 0.0));
    assert_eq!(at(point(0.0, 1.5, -1.0), 1.0), vector(0.0, 0.0, -1.0));
    assert_eq!(at(point(0.5, 1.5, 0.0), 0.25), vector(0.5, 0.0, 0.0));
}

#[test]
fn the_upper_cap_comes_first_where_the_bands_cross() {
    let n = normal_at_cylinder(scalar(2.0), scalar(1.0), scalar(0.25), &point(0.5, 1.5, 0.0));
    assert_eq!(n, vector(0.0, 1.0, 0.0));
}

#[test]
fn cone_normal_leans_towards_the_apex_plane() {
    let (lower_band, upper_band) = (scalar(f64::NEG_INFINITY), scalar(f64::INFINITY));
    let at = |p: Point, dist: f64, slope: f64| {
        normal_at_cone(lower_band, upper_band, scalar(dist), scalar(slope), &p)
    };
    assert_eq!(at(point(1.0, 1.0, 1.0), 2.0, 1.5), vector(1.0, -1.5, 1.0));
    assert_eq!(at(point(-1.0, -1.0, 0.0), 1.0, 1.0), vector(-1.0, 1.0, 0.0));
    assert_eq!(at(point(0.0, 0.0, 0.0), 0.0, 0.0), vector(0.0, 0.0, 0.0));
    assert_eq!(at(point(1.0, 5.0e-324, 0.0), 1.0, 0.0), vector(1.0, -0.0, 0.0));
    let capped = normal_at_cone(scalar(-0.5), scalar(0.5), scalar(0.04), scalar(0.2), &point(0.2, 0.5, 0.0));
    assert_eq!(capped, vector(0.0, 1.0, 0.0));
    let below = normal_at_cone(scalar(-0.5), scalar(0.5), scalar(0.04), scalar(0.2), &point(0.2, -0.5, 0.0));
    assert_eq!(below, vector(0.0, -1.0, 0.0));
}

fn bearings(radial: Vector, dist: f64, slope: f64, lower_band: f64, upper_band: f64) -> Bearings {
    Bearings {
        radial,
        dist: scalar(dist),
        slope: scalar(slope),
        lower_band: scalar(lower_band),
        upper_band: scalar(upper_band),
    }
}

#[test]
fn each_shape_selects_its_own_roots() {
    let ray = along(1.0);
    assert_eq!(Shape::Plane.intersect(&ray, &Crossings::Plane { root: scalar(3.0) }), roots(&[3.0]));
    assert_eq!(Shape::Plane.intersect(&along(0.0), &Crossings::Plane { root: scalar(3.0) }), None);
    let sphere = Crossings::Sphere { discriminant: scalar(4.0), t1: scalar(4.0), t2: scalar(6.0) };
    assert_eq!(Shape::Sphere.intersect(&ray, &sphere), roots(&[4.0, 6.0]));
    let missed = Crossings::Sphere { discriminant: scalar(-4.0), t1: scalar(4.0), t2: scalar(6.0) };
    assert_eq!(Shape::Sphere.intersect(&ray, &missed), None);
    let cube = Crossings::Cube { x: span(1.0, 9.0), y: span(2.0, 8.0), z: span(3.0, 7.0) };
    assert_eq!(Shape::Cube.intersect(&ray, &cube), roots(&[3.0, 7.0]));
}

#[test]
fn a_capped_shape_joins_wall_and_caps() {
    let ray = along(1.0);
    let cylinder = Crossings::Cylinder {
        a: scalar(1.0),
        discriminant: scalar(4.0),
        first: wall(4.0, 1.5),
        second: wall(6.0, 2.5),
        lower: cap(8.0, 0.5, 1.0),
        upper: cap(9.0, 1.5, 1.0),
    };
    let closed = Shape::Cylinder(scalar(1.0), scalar(2.0), true);
    let open = Shape::Cylinder(scalar(1.0), scalar(2.0), false);
    assert_eq!(closed.intersect(&ray, &cylinder), roots(&[4.0, 8.0]));
    assert_eq!(open.intersect(&ray, &cylinder), roots(&[4.0]));
    assert_eq!(closed.intersect(&along(0.0), &cylinder), roots(&[4.0]));
    let cone = Crossings::Cone {
        a: scalar(0.0),
        b: scalar(1.0),
        linear: wall(0.35, 0.25),
        discriminant: scalar(4.0),
        first: wall(4.0, 0.0),
        second: wall(6.0, 0.0),
        lower: cap(8.0, 0.2, 0.25),
        upper: cap(9.0, 0.25, 0.25),
    };
    let capped = Shape::Cone(scalar(-0.5), scalar(0.5), true);
    let bare = Shape::Cone(scalar(-0.5), scalar(0.5), false);
    assert_eq!(capped.intersect(&ray, &cone), roots(&[0.35, 8.0, 9.0]));
    assert_eq!(bare.intersect(&ray, &cone), roots(&[0.35]));
}

#[test]
fn each_shape_takes_its_own_normal() {
    let p = point(0.5, 2.0, 0.25);
    let b = bearings(vector(0.5, 2.0, 0.25), 0.3125, 0.75, 1.0, 2.0);
    assert_eq!(Shape::Plane.normal_at(&p, &b), vector(0.0, 1.0, 0.0));
    assert_eq!(Shape::Sphere.normal_at(&p, &b), vector(0.5, 2.0, 0.25));
    assert_eq!(Shape::Cube.normal_at(&p, &b), vector(0.0, 2.0, 0.0));
    assert_eq!(Shape::Cylinder(scalar(1.0), scalar(2.0), true).normal_at(&p, &b), vector(0.0, 1.0, 0.0));
    assert_eq!(Shape::Cone(scalar(1.0), scalar(2.0), true).normal_at(&p, &b), vector(0.0, 1.0, 0.0));
    let wide = bearings(vector(0.5, 2.0, 0.25), 0.3125, 0.75, f64::NEG_INFINITY, f64::INFINITY);
    assert_eq!(Shape::Cylinder(scalar(1.0), scalar(2.0), true).normal_at(&p, &wide), vector(0.5, 0.0, 0.25));
    assert_eq!(Shape::Cone(scalar(1.0), scalar(2.0), true).normal_at(&p, &wide), vector(0.5, -0.75, 0.25));
}

#[test]
fn crossings_of_another_kind_give_no_roots() {
    let sphere = Crossings::Sphere { discriminant: scalar(4.0), t1: scalar(4.0), t2: scalar(6.0) };
    assert_eq!(Shape::Plane.intersect(&along(1.0), &sphere), None);
    assert_eq!(Shape::Cube.intersect(&along(1.0), &sphere), None);
    assert_eq!(Shape::Sphere.intersect(&along(1.0), &Crossings::Plane { root: scalar(1.0) }), None);
}

#[test]
fn the_single_root_of_a_cone_counts_only_between_the_bounds() {
    let (lo, hi) = (scalar(-0.5), scalar(0.5));
    let linear = |y: f64, caps: Option<Vec<Scalar>>| {
        intersect_cone(lo, hi, scalar(0.0), scalar(2.0), wall(3.0, y), scalar(4.0), wall(4.0, 0.0), wall(6.0, 0.0), caps)
    };
    assert_eq!(linear(0.25, None), roots(&[3.0]));
    assert_eq!(linear(1.0, None), None);
    assert_eq!(linear(0.5, None), None);
    assert_eq!(linear(-0.5, None), None);
    assert_eq!(linear(-0.75, None), None);
    assert_eq!(linear(f64::NAN, None), None);
    assert_eq!(linear(1.0, roots(&[8.0])), roots(&[8.0]));
    assert_eq!(linear(0.0, roots(&[8.0])), roots(&[3.0, 8.0]));
}
