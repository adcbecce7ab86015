//! The core of a ray tracer: where a ray meets a surface, which of the
//! surfaces it meets is the nearest, and how the lights that reach a point
//! shade it.
//!
//! All of it is written over a scalar type `T` with the four operations,
//! negation and an order ([`scalar::Scalar`]). A contract states its result
//! over the specifications that `vstd` gives to those operators: for the
//! integer types that is the exact result, provided nothing overflows, and
//! the functions run the same on any other number type.
//!
//! Two kinds of values come in as arguments. Numbers that the rules compare
//! with or count from (`zero`, `one`, `epsilon`, `bias`) are handed to the
//! functions that use them. And what takes more than the operators is the
//! caller's to compute: square roots, tangents, powers and floors, and the
//! transforms that place shapes and cameras in the world.

pub mod camera;
pub mod color;
pub mod image_output;
pub mod intersections;
pub mod material;
pub mod pattern;
pub mod point_light;
pub mod ray;
pub mod scalar;
pub mod scene;
pub mod trace;
pub mod vector;
