use rt_new::color::Color;
use rt_new::computation::Computation;
use rt_new::computation::Facing;
use rt_new::computation::Fresnel;
use rt_new::computation::Surface;
use rt_new::intersection::Intersection;
use rt_new::light::Light;
use rt_new::material::Illumination;
use rt_new::material::Material;
use rt_new::matrice::Matrice;
use rt_new::object::Object;
use rt_new::object::ObjectBuilder;
use rt_new::pattern::Pattern;
use rt_new::pattern::PatternType;
use rt_new::point::Point;
use rt_new::ray::Ray;
use rt_new::scalar::Scalar;
use rt_new::shape::Shape;
use rt_new::transformations::scaling;
use rt_new::transformations::translation;
use rt_new::vector::Vector;
use rt_new::world::Blend;
use rt_new::world::Bounce;
use rt_new::world::Shading;
use rt_new::world::World;

fn scalar(x: f64) -> Scalar {
    Scalar::from_bits(x.to_bits())
}

fn num(s: Scalar) -> f64 {
    f64::from_bits(s.to_bits())
}

fn point(x: f64, y: f64, z: f64) -> Point {
    Point::new(scalar(x), scalar(y), scalar(z))
}

fn vector(x: f64, y: f64, z: f64) -> Vector {
    Vector::new(scalar(x), scalar(y), scalar(z))
}

fn color(x: f64, y: f64, z: f64) -> Color {
    Color::new(scalar(x), scalar(y), scalar(z))
}

fn records(ts: &[(f64, usize)]) -> Vec<Intersection> {
    ts.iter().map(|(t, object)| Intersection::new(scalar(*t), *object)).collect()
}

fn roots(ts: &[f64]) -> Option<Vec<Scalar>> {
    Some(ts.iter().map(|t| scalar(*t)).collect())
}

fn with_index(refractive_index: f64) -> Object {
    let mut o = Object::default();
    o.material.refractive_index = scalar(refractive_index);
    o
}

fn with_coefficients(reflective: f64, transparency: f64) -> World {
    let mut o = Object::default();
    o.material.reflective = scalar(reflective);
    o.material.transparency = scalar(transparency);
    let mut w = World::new(Light::default());
    w.add_shape(o);
    w
}

fn surface() -> Surface {
    Surface {
        point: point(1.0, 2.0, 3.0),
        normal: vector(0.0, -1.0, 0.0),
        normal_dot_eye: scalar(-0.5),
        over_point: point(1.0, 2.5, 3.0),
        under_point: point(1.0, 1.5, 3.0),
        reflectv: vector(0.0, 0.0, 1.0),
    }
}

fn comps_on(w: &World) -> Computation {
    let ray = Ray::new(point(0.0, 0.0, -5.0), vector(0.0, 0.0, 1.0));
    let i = Intersection::new(scalar(4.0), 0);
    Computation::new(&ray, &i, &vec![], &w.objects, &surface())
}

// Light, material, object

#[test]
fn default_light() {
    let l = Light::default();
    assert_eq!(l.position, point(-5.0, 10.0, -10.0));
    assert_eq!(l.intensity, color(1.0, 1.0, 1.0));
}

#[test]
fn default_material_in_full() {
    let m = Material::default();
    assert_eq!(m.color, color(1.0, 1.0, 1.0));
    assert_eq!(num(m.ambient), 0.1);
    assert_eq!(num(m.diffuse), 0.9);
    assert_eq!(num(m.specular), 0.9);
    assert_eq!(num(m.shininess), 200.0);
    assert!(m.pattern.is_none());
    assert_eq!(m.reflective, scalar(0.0));
    assert_eq!(m.transparency, scalar(0.0));
    assert_eq!(num(m.refractive_index), 1.0);
}

#[test]
fn builder_without_fields_builds_the_default() {
    let built = Material::builder().build();
    let default = Material::default();
    assert_eq!(built.color, default.color);
    assert_eq!(built.ambient, default.ambient);
    assert_eq!(built.diffuse, default.diffuse);
    assert_eq!(built.specular, default.specular);
    assert_eq!(built.shininess, default.shininess);
    assert!(built.pattern.is_none());
    assert_eq!(built.reflective, default.reflective);
    assert_eq!(built.transparency, default.transparency);
    assert_eq!(built.refractive_index, default.refractive_index);
}

#[test]
fn builder_keeps_each_field_that_was_set() {
    let m = Material::builder()
        .color(color(0.1, 0.2, 0.3))
        .ambient(scalar(0.4))
        .diffuse(scalar(0.5))
        .specular(scalar(0.6))
        .shininess(scalar(7.0))
        .pattern(Pattern::ring(color(1.0, 0.0, 0.0), color(0.0, 1.0, 0.0)))
        .reflective(scalar(0.8))
        .transparency(scalar(0.9))
        .refractive_index(scalar(1.5))
        .build();
    assert_eq!(m.color, color(0.1, 0.2, 0.3));
    assert_eq!(num(m.ambient), 0.4);
    assert_eq!(num(m.diffuse), 0.5);
    assert_eq!(num(m.specular), 0.6);
    assert_eq!(num(m.shininess), 7.0);
    assert_eq!(
        m.pattern.unwrap().pattern_type,
        PatternType::Ring(color(1.0, 0.0, 0.0), color(0.0, 1.0, 0.0))
    );
    assert_eq!(num(m.reflective), 0.8);
    assert_eq!(num(m.transparency), 0.9);
    assert_eq!(num(m.refractive_index), 1.5);
}

#[test]
fn builder_takes_the_last_value_of_a_field() {
    let m = Material::builder().ambient(scalar(0.4)).ambient(scalar(0.7)).build();
    assert_eq!(num(m.ambient), 0.7);
    assert_eq!(num(m.diffuse), 0.9);
}

#[test]
fn default_object_is_an_untransformed_sphere() {
    let o = Object::default();
    assert_eq!(o.shape, Shape::Sphere);
    assert!(o.transformation().is_equal(&Matrice::identity()));
    assert!(o.transformation_inverse().is_equal(&Matrice::identity()));
    assert!(o.transformation_inverse_transpose().is_equal(&Matrice::identity()));
    assert_eq!(Shape::default(), Shape::Sphere);
}

#[test]
fn object_builders_default_what_is_not_set() {
    assert_eq!(Object::builder().build().shape, Shape::Sphere);
    assert_eq!(Object::sphere_builder().build().shape, Shape::Sphere);
    assert_eq!(Object::plane_builder().build().shape, Shape::Plane);
    assert_eq!(ObjectBuilder::sphere().shape(Shape::Cube).build().shape, Shape::Cube);
    assert_eq!(ObjectBuilder::plane().build().shape, Shape::Plane);
    let o = Object::builder().material(Material::builder().ambient(scalar(1.0)).build()).build();
    assert_eq!(num(o.material.ambient), 1.0);
    assert!(o.transformation().is_equal(&Matrice::identity()));
}

#[test]
fn object_keeps_the_transpose_of_the_inverse() {
    let t = translation(scalar(1.0), scalar(2.0), scalar(3.0));
    let inverted = translation(scalar(-1.0), scalar(-2.0), scalar(-3.0));
    let o = Object::new(Material::default(), Shape::Cube, t.clone(), inverted.clone());
    assert!(o.transformation().is_equal(&t));
    assert!(o.transformation_inverse().is_equal(&inverted));
    assert!(o.transformation_inverse_transpose().is_equal(&inverted.transpose()));
    assert_eq!(num(o.transformation_inverse_transpose().element_at(3, 0)), -1.0);
    assert_eq!(o.shape, Shape::Cube);
}

#[test]
fn a_new_transformation_renews_both_derived_matrices() {
    let mut o = Object::plane_builder().build();
    let s = scaling(scalar(2.0), scalar(4.0), scalar(8.0));
    let inverted = scaling(scalar(0.5), scalar(0.25), scalar(0.125));
    o.set_transformation(s.clone(), inverted.clone());
    assert!(o.transformation().is_equal(&s));
    assert!(o.transformation_inverse().is_equal(&inverted));
    assert!(o.transformation_inverse_transpose().is_equal(&inverted.transpose()));
    let moved = translation(scalar(0.0), scalar(0.0), scalar(5.0));
    let back = translation(scalar(0.0), scalar(0.0), scalar(-5.0));
    o.set_transformation(moved, back.clone());
    assert!(o.transformation_inverse_transpose().is_equal(&back.transpose()));
    assert_eq!(o.shape, Shape::Plane);
}

// Patterns

#[test]
fn patterns_start_untransformed() {
    let (a, b) = (color(1.0, 0.0, 0.0), color(0.0, 0.0, 1.0));
    let all = [
        (Pattern::ring(a, b), PatternType::Ring(a, b)),
        (Pattern::stripe(a, b), PatternType::Stripe(a, b)),
        (Pattern::checker(a, b), PatternType::Checker(a, b)),
        (Pattern::gradient(a, b), PatternType::Gradient(a, b)),
        (Pattern::test(), PatternType::Test),
        (Pattern::default(), PatternType::Stripe(Color::black(), Color::white())),
    ];
    for (pattern, rule) in all {
        assert_eq!(pattern.pattern_type, rule);
        assert!(pattern.transformation.is_equal(&Matrice::identity()));
        assert!(pattern.transformation_inverse.is_equal(&Matrice::identity()));
    }
    assert_eq!(PatternType::default(), PatternType::Stripe(Color::black(), Color::white()));
}

#[test]
fn pattern_keeps_its_frame() {
    let s = scaling(scalar(2.0), scalar(2.0), scalar(2.0));
    let inverted = scaling(scalar(0.5), scalar(0.5), scalar(0.5));
    let mut p = Pattern::new(PatternType::Test, s.clone(), inverted.clone());
    assert!(p.transformation.is_equal(&s));
    assert!(p.transformation_inverse.is_equal(&inverted));
    p.set_transformation(inverted.clone(), s.clone());
    assert!(p.transformation.is_equal(&inverted));
    assert!(p.transformation_inverse.is_equal(&s));
    assert_eq!(p.pattern_type, PatternType::Test);
}

#[test]
fn alternating_rules_go_by_the_parity_of_the_band() {
    let (a, b) = (color(1.0, 1.0, 1.0), color(0.0, 0.0, 0.0));
    let blend = color(0.5, 0.5, 0.5);
    let p = point(0.25, 0.5, 0.75);
    for rule in [PatternType::Ring(a, b), PatternType::Stripe(a, b), PatternType::Checker(a, b)] {
        for (band, expected) in [
            (0, a),
            (1, b),
            (2, a),
            (3, b),
            (-1, b),
            (-2, a),
            (-3, b),
            (i32::MAX, b),
            (i32::MIN, a),
        ] {
            assert_eq!(rule.at(&p, band, blend), expected);
        }
    }
}

#[test]
fn gradient_takes_the_blend_and_the_test_rule_the_point() {
    let (a, b) = (color(1.0, 1.0, 1.0), color(0.0, 0.0, 0.0));
    let blend = color(0.75, 0.75, 0.75);
    let p = point(0.25, 0.5, 0.75);
    assert_eq!(PatternType::Gradient(a, b).at(&p, 1, blend), blend);
    assert_eq!(PatternType::Test.at(&p, 1, blend), color(0.25, 0.5, 0.75));
    assert_eq!(Pattern::stripe(a, b).at(&p, 3, blend), b);
    assert_eq!(Pattern::test().at(&p, 3, blend), color(0.25, 0.5, 0.75));
}

// Lighting

#[test]
fn lighting_cases() {
    let cases = [
        (true, 1.0, 1.0, Illumination::Shadowed),
        (true, -1.0, -1.0, Illumination::Shadowed),
        (false, -1.0e-300, 1.0, Illumination::LightBehind),
        (false, f64::NEG_INFINITY, 1.0, Illumination::LightBehind),
        (false, -0.0, -1.0, Illumination::Matte),
        (false, 0.0, 0.0, Illumination::Matte),
        (false, 0.5, -0.0, Illumination::Matte),
        (false, 0.5, -3.0, Illumination::Matte),
        (false, 0.0, 1.0e-300, Illumination::Glossy),
        (false, 0.5, 0.5, Illumination::Glossy),
        (false, f64::NAN, 0.5, Illumination::Glossy),
        (false, 0.5, f64::NAN, Illumination::Glossy),
    ];
    for (in_shadow, light_dot_normal, reflect_dot_eye, expected) in cases {
        assert_eq!(
            Material::lighting(in_shadow, scalar(light_dot_normal), scalar(reflect_dot_eye)),
            expected
        );
    }
}

// Computation

#[test]
fn face_turns_a_normal_that_points_away() {
    let n = vector(0.0, 0.0, -1.0);
    assert_eq!(Computation::face(n, scalar(1.0)), Facing { normalv: n, inside: false });
    assert_eq!(Computation::face(n, scalar(0.0)), Facing { normalv: n, inside: false });
    assert_eq!(Computation::face(n, scalar(-0.0)), Facing { normalv: n, inside: false });
    assert_eq!(Computation::face(n, scalar(f64::NAN)), Facing { normalv: n, inside: false });
    assert_eq!(
        Computation::face(n, scalar(-1.0)),
        Facing { normalv: vector(0.0, 0.0, 1.0), inside: true }
    );
}

#[test]
fn computation_takes_geometry_and_finds_eye_and_indices() {
    let objects = vec![with_index(1.5), with_index(2.0), with_index(2.5)];
    let ray = Ray::new(point(0.0, 0.0, -4.0), vector(0.0, -0.0, 1.0));
    let xs = records(&[(2.0, 0), (2.75, 1), (3.25, 2), (4.75, 1), (5.25, 2), (6.0, 0)]);
    let n12 = [(1.0, 1.5), (1.5, 2.0), (2.0, 2.5), (2.5, 2.5), (2.5, 1.5), (1.5, 1.0)];
    for (k, x) in xs.iter().enumerate() {
        let c = Computation::new(&ray, x, &xs, &objects, &surface());
        assert_eq!(c.t, x.t);
        assert_eq!(c.object, x.object);
        assert_eq!(c.eyev, vector(0.0, 0.0, -1.0));
        assert_eq!(c.point, surface().point);
        assert_eq!(c.normalv, vector(0.0, 1.0, 0.0));
        assert!(c.inside);
        assert_eq!(c.over_point, surface().over_point);
        assert_eq!(c.under_point, surface().under_point);
        assert_eq!(c.reflectv, surface().reflectv);
        assert_eq!((num(c.n1), num(c.n2)), n12[k]);
    }
}

#[test]
fn computation_turns_the_normal_towards_the_eye() {
    let objects = vec![with_index(1.5)];
    let ray = Ray::new(point(0.0, 0.0, -4.0), vector(0.0, 0.0, 1.0));
    let i = Intersection::new(scalar(1.0), 0);
    let mut s = surface();
    for (dot, normalv, inside) in [
        (-0.5, vector(0.0, 1.0, 0.0), true),
        (-1.0e-300, vector(0.0, 1.0, 0.0), true),
        (0.5, vector(0.0, -1.0, 0.0), false),
        (0.0, vector(0.0, -1.0, 0.0), false),
        (-0.0, vector(0.0, -1.0, 0.0), false),
        (f64::NAN, vector(0.0, -1.0, 0.0), false),
    ] {
        s.normal_dot_eye = scalar(dot);
        let c = Computation::new(&ray, &i, &[], &objects, &s);
        assert_eq!(c.normalv, normalv);
        assert_eq!(c.inside, inside);
        assert_eq!(Computation::face(s.normal, s.normal_dot_eye), Facing { normalv, inside });
    }
}

#[test]
fn base_colour_is_that_of_the_pattern_where_there_is_one() {
    let shown = color(0.25, 0.5, 0.75);
    let plain = Material::builder().color(color(1.0, 0.0, 0.0)).build();
    assert_eq!(plain.base_color(shown), color(1.0, 0.0, 0.0));
    assert_eq!(Material::default().base_color(shown), color(1.0, 1.0, 1.0));
    let patterned = Material::builder().color(color(1.0, 0.0, 0.0)).pattern(Pattern::test()).build();
    assert_eq!(patterned.base_color(shown), shown);
    assert_eq!(patterned.base_color(Color::black()), Color::black());
}

#[test]
fn a_hit_outside_the_list_lies_in_empty_space() {
    let objects = vec![with_index(1.5)];
    let ray = Ray::new(point(0.0, 0.0, -4.0), vector(0.0, 0.0, 1.0));
    let c = Computation::new(&ray, &Intersection::new(scalar(1.0), 0), &vec![], &objects, &surface());
    assert_eq!((num(c.n1), num(c.n2)), (1.0, 1.0));
}

#[test]
fn fresnel_cases() {
    let w = with_coefficients(0.0, 0.0);
    let mut c = comps_on(&w);
    let cases = [
        (1.5, 1.0, 1.0000001, Fresnel::Total),
        (1.5, 1.0, f64::INFINITY, Fresnel::Total),
        (1.5, 1.0, 1.0, Fresnel::Transmitted),
        (1.5, 1.0, 0.3, Fresnel::Transmitted),
        (1.5, 1.0, f64::NAN, Fresnel::Transmitted),
        (1.0, 1.5, 5.0, Fresnel::Incident),
        (1.5, 1.5, 5.0, Fresnel::Incident),
        (f64::NAN, 1.0, 5.0, Fresnel::Incident),
    ];
    for (n1, n2, sin2_t, expected) in cases {
        c.n1 = scalar(n1);
        c.n2 = scalar(n2);
        assert_eq!(c.shlick(scalar(sin2_t)), expected);
    }
}

// World

#[test]
fn default_world() {
    let w = World::default();
    assert_eq!(w.light.position, point(-10.0, 10.0, -10.0));
    assert_eq!(w.light.intensity, color(1.0, 1.0, 1.0));
    assert_eq!(w.objects.len(), 2);
    assert_eq!(w.objects[0].shape, Shape::Sphere);
    assert_eq!(w.objects[0].material.color, color(0.8, 1.0, 0.6));
    assert_eq!(num(w.objects[0].material.diffuse), 0.7);
    assert_eq!(num(w.objects[0].material.specular), 0.2);
    assert_eq!(num(w.objects[0].material.ambient), 0.1);
    assert!(w.objects[0].transformation().is_equal(&Matrice::identity()));
    assert_eq!(w.objects[1].shape, Shape::Sphere);
    assert!(w.objects[1].transformation().is_equal(&scaling(scalar(0.5), scalar(0.5), scalar(0.5))));
    assert!(w.objects[1].transformation_inverse().is_equal(&scaling(
        scalar(2.0),
        scalar(2.0),
        scalar(2.0)
    )));
    assert_eq!(num(w.objects[1].material.diffuse), 0.9);
}

#[test]
fn world_grows_in_order() {
    let mut w = World::new(Light::default());
    assert!(w.objects.is_empty());
    w.add_shape(Object::plane_builder().build());
    w.add_shapes(vec![Object::sphere_builder().build(), Object::builder().shape(Shape::Cube).build()]);
    w.add_shapes(vec![]);
    let shapes: Vec<Shape> = w.objects.iter().map(|o| o.shape).collect();
    assert_eq!(shapes, vec![Shape::Plane, Shape::Sphere, Shape::Cube]);
    assert_eq!(w.light, Light::default());
}

#[test]
fn intersect_joins_and_sorts_the_roots_of_all_objects() {
    let w = World::default();
    let xs = w.intersect(&vec![roots(&[4.0, 6.0]), roots(&[4.5, 5.5])]).unwrap();
    assert_eq!(xs, records(&[(4.0, 0), (4.5, 1), (5.5, 1), (6.0, 0)]));
    let ties = w.intersect(&vec![roots(&[2.0, 1.0]), roots(&[1.0, 2.0])]).unwrap();
    assert_eq!(ties, records(&[(1.0, 0), (1.0, 1), (2.0, 0), (2.0, 1)]));
    let one = w.intersect(&vec![None, roots(&[3.0])]).unwrap();
    assert_eq!(one, records(&[(3.0, 1)]));
}

#[test]
fn intersect_without_roots_is_a_miss() {
    let w = World::default();
    assert_eq!(w.intersect(&vec![None, None]), None);
    assert_eq!(w.intersect(&vec![roots(&[]), None]), None);
    assert_eq!(World::new(Light::default()).intersect(&vec![]), None);
}

#[test]
fn color_at_finds_the_nearest_record_in_front() {
    let w = World::default();
    let seen = w.color_at(&vec![roots(&[-4.0, 6.0]), roots(&[-1.0, 5.5])]).unwrap();
    assert_eq!(seen.hit, Intersection::new(scalar(5.5), 1));
    assert_eq!(seen.xs, records(&[(-4.0, 0), (-1.0, 1), (5.5, 1), (6.0, 0)]));
    let tied = w.color_at(&vec![roots(&[3.0]), roots(&[3.0])]).unwrap();
    assert_eq!(tied.hit, Intersection::new(scalar(3.0), 0));
    assert_eq!(tied.xs, records(&[(3.0, 0), (3.0, 1)]));
    let unordered = w.color_at(&vec![roots(&[7.0, 2.0]), roots(&[5.0, -3.0])]).unwrap();
    assert_eq!(unordered.hit, Intersection::new(scalar(2.0), 0));
    assert_eq!(unordered.xs, records(&[(-3.0, 1), (2.0, 0), (5.0, 1), (7.0, 0)]));
    assert!(w.color_at(&vec![roots(&[-4.0, -6.0]), roots(&[0.0, -0.0])]).is_none());
    assert!(w.color_at(&vec![None, None]).is_none());
}

#[test]
fn a_sighting_is_prepared_from_its_whole_list() {
    let mut w = World::new(Light::default());
    w.add_shapes(vec![with_index(1.5), with_index(2.0), with_index(2.5)]);
    let ray = Ray::new(point(0.0, 0.0, -4.0), vector(0.0, 0.0, 1.0));
    // The ray starts inside the first two objects and meets the third ahead.
    let seen = w
        .color_at(&vec![roots(&[-2.0, 6.0]), roots(&[-1.0, 4.75]), roots(&[3.25, 5.25])])
        .unwrap();
    assert_eq!(seen.hit, Intersection::new(scalar(3.25), 2));
    let c = w.prepare(&ray, &seen, &surface());
    assert_eq!(c.t, scalar(3.25));
    assert_eq!(c.object, 2);
    assert_eq!((num(c.n1), num(c.n2)), (2.0, 2.5));
    assert_eq!(c.eyev, vector(0.0, 0.0, -1.0));
    assert_eq!(c.point, surface().point);
    assert_eq!(c.over_point, surface().over_point);
    let from_outside = w.color_at(&vec![roots(&[2.0, 6.0]), None, None]).unwrap();
    let d = w.prepare(&ray, &from_outside, &surface());
    assert_eq!((num(d.n1), num(d.n2)), (1.0, 1.5));
}

#[test]
fn shadow_needs_a_record_between_point_and_light() {
    let w = World::default();
    let distance = scalar(10.0);
    assert!(w.is_shadowed(&vec![roots(&[4.0, 6.0]), None], distance));
    assert!(w.is_shadowed(&vec![roots(&[-4.0, 9.999]), None], distance));
    assert!(w.is_shadowed(&vec![None, roots(&[20.0, 5.0e-324])], distance));
    assert!(!w.is_shadowed(&vec![roots(&[10.0, 12.0]), None], distance));
    assert!(!w.is_shadowed(&vec![roots(&[-4.0, -6.0]), roots(&[11.0])], distance));
    assert!(!w.is_shadowed(&vec![None, None], distance));
    assert!(!w.is_shadowed(&vec![roots(&[0.0]), roots(&[-0.0])], distance));
    assert!(!w.is_shadowed(&vec![roots(&[4.0]), None], scalar(f64::NAN)));
    assert!(w.is_shadowed(&vec![roots(&[4.0]), None], scalar(f64::INFINITY)));
}

#[test]
fn colours_blend_by_reflectance_only_where_both_coefficients_are_above_zero() {
    let cases = [
        (0.5, 0.5, Blend::Fresnel),
        (1.0e-300, 1.0e-300, Blend::Fresnel),
        (0.5, 0.0, Blend::Sum),
        (0.0, 0.5, Blend::Sum),
        (0.0, 0.0, Blend::Sum),
        (-0.5, 0.5, Blend::Sum),
        (0.5, -0.0, Blend::Sum),
        (f64::NAN, 0.5, Blend::Sum),
    ];
    for (reflective, transparency, expected) in cases {
        let w = with_coefficients(reflective, transparency);
        let c = comps_on(&w);
        assert_eq!(w.shade_hit(&c), Shading { shadow_origin: c.over_point, blend: expected });
    }
}

#[test]
fn no_reflection_without_budget_or_coefficient() {
    for reflective in [0.0, 0.5, 1.0, -0.0, f64::NAN, f64::INFINITY] {
        let w = with_coefficients(reflective, 0.0);
        assert_eq!(w.reflected_color(&comps_on(&w), 0), None);
    }
    for remaining in [1, 4, usize::MAX] {
        let w = with_coefficients(0.0, 0.0);
        assert_eq!(w.reflected_color(&comps_on(&w), remaining), None);
        let z = with_coefficients(-0.0, 0.0);
        assert_eq!(z.reflected_color(&comps_on(&z), remaining), None);
    }
}

#[test]
fn reflection_leaves_the_over_point_with_one_bounce_less() {
    let w = with_coefficients(0.5, 0.0);
    let c = comps_on(&w);
    for remaining in [1, 2, 5, usize::MAX] {
        assert_eq!(
            w.reflected_color(&c, remaining),
            Some(Bounce {
                ray: Ray::new(c.over_point, c.reflectv),
                remaining: remaining - 1,
                weight: scalar(0.5),
            })
        );
    }
}

#[test]
fn no_refraction_without_budget_or_coefficient_or_under_total_reflection() {
    let direction = vector(0.0, -1.0, 0.0);
    for transparency in [0.0, 0.5, 1.0, -0.0, f64::NAN] {
        let w = with_coefficients(0.0, transparency);
        assert_eq!(w.refracted_color(&comps_on(&w), 0, scalar(0.5), direction), None);
    }
    let opaque = with_coefficients(1.0, 0.0);
    assert_eq!(opaque.refracted_color(&comps_on(&opaque), 5, scalar(0.5), direction), None);
    let clear = with_coefficients(0.0, 1.0);
    assert_eq!(clear.refracted_color(&comps_on(&clear), 5, scalar(1.0000001), direction), None);
    assert_eq!(clear.refracted_color(&comps_on(&clear), 5, scalar(f64::INFINITY), direction), None);
}

#[test]
fn refraction_leaves_the_under_point_with_one_bounce_less() {
    let w = with_coefficients(0.0, 0.75);
    let c = comps_on(&w);
    let direction = vector(0.0, -1.0, 0.0);
    for sin2_t in [0.0, 0.5, 1.0, -3.0, f64::NAN] {
        assert_eq!(
            w.refracted_color(&c, 5, scalar(sin2_t), direction),
            Some(Bounce {
                ray: Ray::new(c.under_point, direction),
                remaining: 4,
                weight: scalar(0.75),
            })
        );
    }
}

#[test]
fn a_chain_of_bounces_ends_with_the_budget() {
    let w = with_coefficients(1.0, 0.0);
    let c = comps_on(&w);
    let mut remaining = 4;
    let mut followed = 0;
    while let Some(bounce) = w.reflected_color(&c, remaining) {
        assert!(bounce.remaining < remaining);
        remaining = bounce.remaining;
        followed += 1;
    }
    assert_eq!(followed, 4);
}
