//! Rays, and reflection about a surface normal.

use crate::scalar::{lawful, runs, Scalar};
use crate::vector::Vec3;
use vstd::prelude::*;
use vstd::std_specs::ops::{AddSpec, MulSpec, SubSpec};

verus! {

/// A half-line: the points `origin + t * direction`. The direction need not
/// have unit length.
#[derive(Clone, Copy, Debug, PartialEq)]
pub struct Ray<T> {
    pub origin: Vec3<T>,
    pub direction: Vec3<T>,
}

impl<T: Scalar> Ray<T> {
    /// The scalar type accepts every operation of `origin + direction * t`.
    pub open spec fn point_at_defined(&self, t: T) -> bool {
        &&& self.direction.mul_req(t)
        &&& self.origin.add_req(self.direction.mul_spec(t))
    }

    /// The point of the ray at parameter `t`.
    pub open spec fn spec_point_at(&self, t: T) -> Vec3<T> {
        self.origin.add_spec(self.direction.mul_spec(t))
    }

    /// The point of the ray at parameter `t`: `origin + direction * t`.
    pub fn point_at(&self, t: T) -> (p: Vec3<T>)
        requires
            runs::<T>(self.point_at_defined(t)),
        ensures
            lawful::<T>() ==> p == self.spec_point_at(t),
    {
        self.origin + self.direction * t
    }
}

/// The scalar type accepts every operation of [`reflect`].
pub open spec fn reflect_defined<T: Scalar>(incoming: Vec3<T>, surface_normal: Vec3<T>) -> bool {
    let d = incoming.spec_dot(surface_normal);
    &&& incoming.dot_defined(surface_normal)
    &&& d.add_req(d)
    &&& surface_normal.mul_req(d.add_spec(d))
    &&& incoming.sub_req(surface_normal.mul_spec(d.add_spec(d)))
}

/// `incoming - surface_normal * 2 (incoming · surface_normal)`, the double
/// taken by adding the dot product to itself.
pub open spec fn spec_reflect<T: Scalar>(incoming: Vec3<T>, surface_normal: Vec3<T>) -> Vec3<T> {
    let d = incoming.spec_dot(surface_normal);
    incoming.sub_spec(surface_normal.mul_spec(d.add_spec(d)))
}

/// The direction in which `incoming` leaves a mirror with the given normal.
pub fn reflect<T: Scalar>(incoming: &Vec3<T>, surface_normal: &Vec3<T>) -> (r: Vec3<T>)
    requires
        runs::<T>(reflect_defined(*incoming, *surface_normal)),
    ensures
        lawful::<T>() ==> r == spec_reflect(*incoming, *surface_normal),
{
    let d = incoming.dot(*surface_normal);
    *incoming - *surface_normal * (d + d)
}

/// On integers a mirror with a unit normal turns the part of a direction
/// that runs along the normal and keeps its size: the reflected direction has
/// the opposite dot product with the normal.
pub proof fn law_reflection_turns_the_normal_part(incoming: Vec3<i64>, surface_normal: Vec3<i64>)
    requires
        reflect_defined(incoming, surface_normal),
        surface_normal.dot_defined(surface_normal),
        surface_normal.spec_dot(surface_normal) == 1,
        spec_reflect(incoming, surface_normal).dot_defined(surface_normal),
    ensures
        spec_reflect(incoming, surface_normal).spec_dot(surface_normal) == -incoming.spec_dot(
            surface_normal,
        ),
{
    let (a, b, c) = (incoming.x as int, incoming.y as int, incoming.z as int);
    let (x, y, z) = (surface_normal.x as int, surface_normal.y as int, surface_normal.z as int);
    let d = a * x + b * y + c * z;
    assert((a - x * (d + d)) * x + (b - y * (d + d)) * y + (c - z * (d + d)) * z == d - (d + d) * (
    x * x + y * y + z * z)) by (nonlinear_arith)
        requires
            d == a * x + b * y + c * z,
    ;
    assert((d + d) * (x * x + y * y + z * z) == d + d) by (nonlinear_arith)
        requires
            x * x + y * y + z * z == 1,
    ;
}

} // verus!
