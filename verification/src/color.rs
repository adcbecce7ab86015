//! Colors: three unconstrained channels, red, green and blue.

use crate::scalar::{lawful, runs, Scalar};
use crate::vector::Vec3;
use std::ops::{Add, Mul, Sub};
use vstd::prelude::*;
use vstd::std_specs::cmp::PartialOrdIs;
use vstd::std_specs::ops::{AddSpec, MulSpec, SubSpec};

verus! {

/// A color, its channels held as the `x`, `y` and `z` of a vector.
#[derive(Clone, Copy, Debug, PartialEq)]
pub struct Color<T>(pub Vec3<T>);

/// `c` held between `low` and `high`; what compares with neither becomes `high`.
pub open spec fn spec_clamp_channel<T: Scalar>(c: T, low: T, high: T) -> T {
    if c.is_lt(&high) {
        if c.is_lt(&low) {
            low
        } else {
            c
        }
    } else {
        high
    }
}

fn clamp_channel<T: Scalar>(c: T, low: T, high: T) -> (r: T)
    ensures
        lawful::<T>() ==> r == spec_clamp_channel(c, low, high),
{
    if c < high {
        if c < low {
            low
        } else {
            c
        }
    } else {
        high
    }
}

impl<T: Scalar> Color<T> {
    /// The color with the given channels.
    pub fn new(r: T, g: T, b: T) -> (c: Self)
        ensures
            c == Color(Vec3 { x: r, y: g, z: b }),
    {
        Color(Vec3 { x: r, y: g, z: b })
    }

    /// The scalar type accepts the three products of `self ⊙ other`.
    pub open spec fn mix_defined(self, other: Self) -> bool {
        &&& self.0.x.mul_req(other.0.x)
        &&& self.0.y.mul_req(other.0.y)
        &&& self.0.z.mul_req(other.0.z)
    }

    /// The channel-wise product `self ⊙ other`.
    pub open spec fn spec_mix(self, other: Self) -> Self {
        Color(
            Vec3 {
                x: self.0.x.mul_spec(other.0.x),
                y: self.0.y.mul_spec(other.0.y),
                z: self.0.z.mul_spec(other.0.z),
            },
        )
    }

    /// The channel-wise product of two colors: a surface color as lit by a
    /// colored light.
    pub fn mix(self, other: Self) -> (c: Self)
        requires
            runs::<T>(self.mix_defined(other)),
        ensures
            lawful::<T>() ==> c == self.spec_mix(other),
    {
        Color(
            Vec3 {
                x: self.0.x * other.0.x,
                y: self.0.y * other.0.y,
                z: self.0.z * other.0.z,
            },
        )
    }

    /// Every channel held between `low` and `high`.
    pub open spec fn spec_clamp(self, low: T, high: T) -> Self {
        Color(
            Vec3 {
                x: spec_clamp_channel(self.0.x, low, high),
                y: spec_clamp_channel(self.0.y, low, high),
                z: spec_clamp_channel(self.0.z, low, high),
            },
        )
    }

    /// Saturates every channel into `[low, high]`, for output only.
    pub fn clamp(self, low: T, high: T) -> (c: Self)
        ensures
            lawful::<T>() ==> c == self.spec_clamp(low, high),
    {
        Color(
            Vec3 {
                x: clamp_channel(self.0.x, low, high),
                y: clamp_channel(self.0.y, low, high),
                z: clamp_channel(self.0.z, low, high),
            },
        )
    }
}

impl<T: Add<Output = T>> vstd::std_specs::ops::AddSpecImpl for Color<T> {
    open spec fn obeys_add_spec() -> bool {
        T::obeys_add_spec()
    }

    open spec fn add_req(self, other: Self) -> bool {
        AddSpec::add_req(self.0, other.0)
    }

    open spec fn add_spec(self, other: Self) -> Self {
        Color(AddSpec::add_spec(self.0, other.0))
    }
}

/// Channel by channel.
impl<T: Add<Output = T>> Add for Color<T> {
    type Output = Self;

    fn add(self, other: Self) -> Self {
        Color(self.0 + other.0)
    }
}

impl<T: Sub<Output = T>> vstd::std_specs::ops::SubSpecImpl for Color<T> {
    open spec fn obeys_sub_spec() -> bool {
        T::obeys_sub_spec()
    }

    open spec fn sub_req(self, other: Self) -> bool {
        SubSpec::sub_req(self.0, other.0)
    }

    open spec fn sub_spec(self, other: Self) -> Self {
        Color(SubSpec::sub_spec(self.0, other.0))
    }
}

/// Channel by channel.
impl<T: Sub<Output = T>> Sub for Color<T> {
    type Output = Self;

    fn sub(self, other: Self) -> Self {
        Color(self.0 - other.0)
    }
}

impl<T: Copy + Mul<Output = T>> vstd::std_specs::ops::MulSpecImpl<T> for Color<T> {
    open spec fn obeys_mul_spec() -> bool {
        T::obeys_mul_spec()
    }

    open spec fn mul_req(self, rhs: T) -> bool {
        MulSpec::mul_req(self.0, rhs)
    }

    open spec fn mul_spec(self, rhs: T) -> Self {
        Color(MulSpec::mul_spec(self.0, rhs))
    }
}

/// Every channel times the scalar on the right.
impl<T: Copy + Mul<Output = T>> Mul<T> for Color<T> {
    type Output = Self;

    fn mul(self, rhs: T) -> Self {
        Color(self.0 * rhs)
    }
}

} // verus!
