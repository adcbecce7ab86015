//! Point lights: a position and a color, the same in every direction.

use crate::color::Color;
use crate::scalar::{lawful, runs, Scalar};
use crate::vector::Vec3;
use vstd::prelude::*;
use vstd::std_specs::cmp::PartialOrdIs;
use vstd::std_specs::ops::{DivSpec, SubSpec};

verus! {

#[derive(Clone, Copy, Debug, PartialEq)]
pub struct PointLight<T> {
    pub color: Color<T>,
    pub position: Vec3<T>,
}

impl<T: Scalar> PointLight<T> {
    /// The scalar type accepts every operation of [`PointLight::direction_from`].
    pub open spec fn direction_from_defined(&self, point: Vec3<T>, distance: T, zero: T) -> bool {
        &&& self.position.sub_req(point)
        &&& zero.is_lt(&distance) ==> self.position.sub_spec(point).div_req(distance)
    }

    /// The way from `point` to the light, divided by `distance`, with that
    /// distance; nothing unless `distance` is above `zero`.
    pub open spec fn spec_direction_from(&self, point: Vec3<T>, distance: T, zero: T) -> Option<
        (T, Vec3<T>),
    > {
        if zero.is_lt(&distance) {
            Some((distance, self.position.sub_spec(point).div_spec(distance)))
        } else {
            None
        }
    }

    /// The distance and the unit direction from `point` to the light, given
    /// the length `distance` of the way between them. A light that sits on the
    /// point has no direction: it gives `None`, and so does a `distance` that
    /// does not compare above `zero`.
    pub fn direction_from(&self, point: &Vec3<T>, distance: T, zero: T) -> (r: Option<(T, Vec3<T>)>)
        requires
            runs::<T>(self.direction_from_defined(*point, distance, zero)),
        ensures
            lawful::<T>() ==> r == self.spec_direction_from(*point, distance, zero),
    {
        let v = self.position - *point;
        if zero < distance {
            Some((distance, v / distance))
        } else {
            None
        }
    }
}

} // verus!
