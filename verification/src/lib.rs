//! The core of a recursive ray tracer, as far as it decides rather than
//! calculates.
//!
//! A renderer of this kind is arithmetic in double precision laced with
//! decisions: which crossing of a ray is the visible one, which media meet
//! there, whether a point lies in shadow, which terms of the lighting model
//! count, when the chain of reflections ends, where a value goes in a matrix
//! or in the image. This crate holds the scene's data and every such
//! decision, each with a contract that says exactly what is decided; it
//! holds no arithmetic on doubles. A number is carried as a
//! [`scalar::Scalar`], its bit pattern ranked in the total order of
//! IEEE 754, on which order, sign and the comparisons of numbers are exact
//! integer facts. Sums, products, roots and powers are the caller's: where
//! an algorithm needs them, the function here takes their results as
//! arguments and says in its documentation what each must be.
//!
//! Objects are known by their position in the world's list, so that a
//! crossing names its object by index and two objects with equal fields are
//! still two.

pub mod camera;
pub mod canvas;
pub mod color;
pub mod computation;
pub mod containment;
pub mod decimal;
pub mod intersection;
pub mod light;
pub mod material;
pub mod matrice;
pub mod object;
pub mod pattern;
pub mod point;
pub mod ray;
pub mod scalar;
pub mod shape;
pub mod transformations;
pub mod tuple;
pub mod vector;
pub mod world;
