//! Positions in space.

use vstd::prelude::*;
use crate::scalar::Scalar;
use crate::tuple::flipped;
use crate::tuple::Tuple;

verus! {

/// A position. Its homogeneous coordinate is one and is never stored.
#[derive(Clone, Copy, Debug, PartialEq, Eq, Structural)]
pub struct Point {
    pub position: Tuple,
}

impl From<Tuple> for Point {
    fn from(value: Tuple) -> (r: Point) {
        Point { position: value }
    }
}

impl vstd::std_specs::convert::FromSpecImpl<Tuple> for Point {
    open spec fn obeys_from_spec() -> bool {
        true
    }

    open spec fn from_spec(value: Tuple) -> Point {
        Point { position: value }
    }
}

impl Default for Point {
    /// The origin.
    fn default() -> (p: Point)
        ensures
            p == Point::from_keys(0, 0, 0),
    {
        Point { position: Tuple::default() }
    }
}

impl Point {
    /// The point with the given keys as coordinates.
    pub open spec fn from_keys(x: i64, y: i64, z: i64) -> Point {
        Point { position: Tuple { x: Scalar { key: x }, y: Scalar { key: y }, z: Scalar { key: z } } }
    }

    pub fn new(x: Scalar, y: Scalar, z: Scalar) -> (p: Point)
        ensures
            p.position == (Tuple { x, y, z }),
    {
        Point { position: Tuple::new(x, y, z) }
    }

    pub fn x(&self) -> (c: Scalar)
        ensures
            c == self.position.x,
    {
        self.position.x
    }

    pub fn y(&self) -> (c: Scalar)
        ensures
            c == self.position.y,
    {
        self.position.y
    }

    pub fn z(&self) -> (c: Scalar)
        ensures
            c == self.position.z,
    {
        self.position.z
    }

    /// The point mirrored through the origin.
    pub fn neg(self) -> (p: Point)
        ensures
            p.position == (Tuple {
                x: flipped(self.position.x),
                y: flipped(self.position.y),
                z: flipped(self.position.z),
            }),
    {
        Point { position: self.position.neg() }
    }
}

} // verus!
