//! Directions and displacements.

use vstd::prelude::*;
use crate::scalar::Scalar;
use crate::tuple::flipped;
use crate::tuple::Tuple;

verus! {

/// A displacement. Its homogeneous coordinate is zero and is never stored.
#[derive(Clone, Copy, Debug, PartialEq, Eq, Structural)]
pub struct Vector {
    pub position: Tuple,
}

impl From<Tuple> for Vector {
    fn from(value: Tuple) -> (r: Vector) {
        Vector { position: value }
    }
}

impl vstd::std_specs::convert::FromSpecImpl<Tuple> for Vector {
    open spec fn obeys_from_spec() -> bool {
        true
    }

    open spec fn from_spec(value: Tuple) -> Vector {
        Vector { position: value }
    }
}

impl Default for Vector {
    /// The vector without length.
    fn default() -> (v: Vector)
        ensures
            v.position == Tuple::from_keys(0, 0, 0),
    {
        Vector { position: Tuple::default() }
    }
}

impl Vector {
    pub fn new(x: Scalar, y: Scalar, z: Scalar) -> (v: Vector)
        ensures
            v.position == (Tuple { x, y, z }),
    {
        Vector { position: Tuple::new(x, y, z) }
    }

    pub fn x(&self) -> (c: Scalar)
        ensures
            c == self.position.x,
    {
        self.position.x
    }

    pub fn y(&self) -> (c: Scalar)
        ensures
            c == self.position.y,
    {
        self.position.y
    }

    pub fn z(&self) -> (c: Scalar)
        ensures
            c == self.position.z,
    {
        self.position.z
    }

    /// The opposite direction.
    pub fn neg(self) -> (v: Vector)
        ensures
            v.position == (Tuple {
                x: flipped(self.position.x),
                y: flipped(self.position.y),
                z: flipped(self.position.z),
            }),
    {
        Vector { position: self.position.neg() }
    }
}

} // verus!
