//! The matrices of the elementary transforms.

use vstd::prelude::*;
use crate::matrice::Matrice;
use crate::point::Point;
use crate::scalar::Scalar;
use crate::scalar::ONE_KEY;
use crate::scalar::ZERO_KEY;
use crate::vector::Vector;

verus! {

/// Positive zero, as the layouts below write it.
pub open spec fn o() -> Scalar {
    Scalar { key: ZERO_KEY }
}

/// One, as the layouts below write it.
pub open spec fn l() -> Scalar {
    Scalar { key: ONE_KEY }
}

/// Moves by `(x, y, z)`.
pub fn translation(x: Scalar, y: Scalar, z: Scalar) -> (m: Matrice)
    ensures
        m.well_formed(),
        m.has_rows(
            seq![seq![l(), o(), o(), x], seq![o(), l(), o(), y], seq![o(), o(), l(), z], seq![o(), o(), o(), l()]],
        ),
{
    let mut out = Matrice::identity();
    out.write_element(0, 3, x);
    out.write_element(1, 3, y);
    out.write_element(2, 3, z);
    out
}

/// Stretches by `x`, `y` and `z` along the axes.
pub fn scaling(x: Scalar, y: Scalar, z: Scalar) -> (m: Matrice)
    ensures
        m.well_formed(),
        m.has_rows(
            seq![seq![x, o(), o(), o()], seq![o(), y, o(), o()], seq![o(), o(), z, o()], seq![o(), o(), o(), l()]],
        ),
{
    let mut out = Matrice::identity();
    out.write_element(0, 0, x);
    out.write_element(1, 1, y);
    out.write_element(2, 2, z);
    out
}

/// Turns about the `x` axis by the angle whose cosine and sine are given.
pub fn rotation_x(cos: Scalar, sin: Scalar) -> (m: Matrice)
    ensures
        m.well_formed(),
        m.has_rows(
            seq![
                seq![l(), o(), o(), o()],
                seq![o(), cos, sin.negation(), o()],
                seq![o(), sin, cos, o()],
                seq![o(), o(), o(), l()],
            ],
        ),
{
    let mut matrice = Matrice::identity();
    matrice.write_element(1, 1, cos);
    matrice.write_element(1, 2, sin.negate());
    matrice.write_element(2, 1, sin);
    matrice.write_element(2, 2, cos);
    matrice
}

/// Turns about the `y` axis by the angle whose cosine and sine are given.
pub fn rotation_y(cos: Scalar, sin: Scalar) -> (m: Matrice)
    ensures
        m.well_formed(),
        m.has_rows(
            seq![
                seq![cos, o(), sin, o()],
                seq![o(), l(), o(), o()],
                seq![sin.negation(), o(), cos, o()],
                seq![o(), o(), o(), l()],
            ],
        ),
{
    let mut matrice = Matrice::identity();
    matrice.write_element(0, 0, cos);
    matrice.write_element(0, 2, sin);
    matrice.write_element(2, 0, sin.negate());
    matrice.write_element(2, 2, cos);
    matrice
}

/// Turns about the `z` axis by the angle whose cosine and sine are given.
pub fn rotation_z(cos: Scalar, sin: Scalar) -> (m: Matrice)
    ensures
        m.well_formed(),
        m.has_rows(
            seq![
                seq![cos, sin.negation(), o(), o()],
                seq![sin, cos, o(), o()],
                seq![o(), o(), l(), o()],
                seq![o(), o(), o(), l()],
            ],
        ),
{
    let mut matrice = Matrice::identity();
    matrice.write_element(0, 0, cos);
    matrice.write_element(0, 1, sin.negate());
    matrice.write_element(1, 0, sin);
    matrice.write_element(1, 1, cos);
    matrice
}

/// Slants each axis in proportion to the two others.
pub fn shearing(xy: Scalar, xz: Scalar, yx: Scalar, yz: Scalar, zx: Scalar, zy: Scalar) -> (m:
    Matrice)
    ensures
        m.well_formed(),
        m.has_rows(
            seq![seq![l(), xy, xz, o()], seq![yx, l(), yz, o()], seq![zx, zy, l(), o()], seq![o(), o(), o(), l()]],
        ),
{
    let mut matrice = Matrice::identity();
    matrice.write_element(0, 1, xy);
    matrice.write_element(0, 2, xz);
    matrice.write_element(1, 0, yx);
    matrice.write_element(1, 2, yz);
    matrice.write_element(2, 0, zx);
    matrice.write_element(2, 1, zy);
    matrice
}

/// The two factors of a view transform: the product `orientation *
/// translation` takes world space into the space of the camera.
#[derive(Clone, Debug)]
pub struct ViewFactors {
    pub orientation: Matrice,
    pub translation: Matrice,
}

/// The factors of the transform of a camera at `from` that looks along
/// `forward`, with `left` and `true_up` its two other axes. The three axes
/// are the caller's arithmetic; the orientation lists them by rows, the
/// last reversed, and the translation moves `from` to the origin.
pub fn view_transformation(from: Point, left: Vector, true_up: Vector, forward: Vector) -> (v:
    ViewFactors)
    ensures
        v.orientation.well_formed(),
        v.translation.well_formed(),
        v.orientation.has_rows(
            seq![
                seq![left.position.x, left.position.y, left.position.z, o()],
                seq![true_up.position.x, true_up.position.y, true_up.position.z, o()],
                seq![
                    forward.position.x.negation(),
                    forward.position.y.negation(),
                    forward.position.z.negation(),
                    o(),
                ],
                seq![o(), o(), o(), l()],
            ],
        ),
        v.translation.has_rows(
            seq![
                seq![l(), o(), o(), from.position.x.negation()],
                seq![o(), l(), o(), from.position.y.negation()],
                seq![o(), o(), l(), from.position.z.negation()],
                seq![o(), o(), o(), l()],
            ],
        ),
{
    let mut orientation = Matrice::identity();
    orientation.write_element(0, 0, left.x());
    orientation.write_element(0, 1, left.y());
    orientation.write_element(0, 2, left.z());
    orientation.write_element(1, 0, true_up.x());
    orientation.write_element(1, 1, true_up.y());
    orientation.write_element(1, 2, true_up.z());
    orientation.write_element(2, 0, forward.x().negate());
    orientation.write_element(2, 1, forward.y().negate());
    orientation.write_element(2, 2, forward.z().negate());
    let translation = translation(from.x().negate(), from.y().negate(), from.z().negate());
    ViewFactors { orientation, translation }
}

} // verus!
