//! Surface patterns: from where a point lies in pattern space to a color.
//!
//! A pattern never sees the point itself. Whoever maps the point into pattern
//! space hands over the integer cell it falls in, the ring it falls in and how
//! far it has come into its cell along `x`.

use crate::color::Color;
use crate::scalar::{lawful, runs, Scalar};
use vstd::prelude::*;
use vstd::std_specs::ops::{AddSpec, MulSpec, SubSpec};

verus! {

/// What the patterns read of a point `(x, y, z)` of pattern space.
#[derive(Clone, Copy, Debug, PartialEq)]
pub struct PatternPoint<T> {
    /// `floor(x)`.
    pub floor_x: i64,
    /// `floor(y)`.
    pub floor_y: i64,
    /// `floor(z)`.
    pub floor_z: i64,
    /// `floor(√(x² + z²))`, the ring around the `y` axis.
    pub ring: i64,
    /// `x - floor(x)`.
    pub fraction: T,
}

/// `n` is even.
pub open spec fn is_even(n: int) -> bool {
    n % 2 == 0
}

/// Whether `n` is even.
pub fn even(n: i64) -> (r: bool)
    ensures
        r == is_even(n as int),
{
    n % 2 == 0
}

/// One color everywhere.
#[derive(Clone, Copy, Debug, PartialEq)]
pub struct SolidPattern<T>(pub Color<T>);

impl<T: Scalar> SolidPattern<T> {
    pub fn color_at(&self) -> (c: Color<T>)
        ensures
            c == self.0,
    {
        self.0
    }
}

/// Slabs of unit width along `x`, `a` on the even ones.
#[derive(Clone, Copy, Debug, PartialEq)]
pub struct StripePattern<T> {
    pub a: Color<T>,
    pub b: Color<T>,
}

impl<T: Scalar> StripePattern<T> {
    pub fn color_at(&self, floor_x: i64) -> (c: Color<T>)
        ensures
            c == (if is_even(floor_x as int) { self.a } else { self.b }),
    {
        if even(floor_x) {
            self.a
        } else {
            self.b
        }
    }
}

/// A blend from `a` to `b` across every unit of `x`.
#[derive(Clone, Copy, Debug, PartialEq)]
pub struct GradientPattern<T> {
    pub a: Color<T>,
    pub b: Color<T>,
}

impl<T: Scalar> GradientPattern<T> {
    /// The scalar type accepts every operation of `a + (b - a) * fraction`.
    pub open spec fn blend_defined(&self, fraction: T) -> bool {
        &&& self.b.sub_req(self.a)
        &&& self.b.sub_spec(self.a).mul_req(fraction)
        &&& self.a.add_req(self.b.sub_spec(self.a).mul_spec(fraction))
    }

    /// `a + (b - a) * fraction`.
    pub open spec fn spec_blend(&self, fraction: T) -> Color<T> {
        self.a.add_spec(self.b.sub_spec(self.a).mul_spec(fraction))
    }

    pub fn color_at(&self, fraction: T) -> (c: Color<T>)
        requires
            runs::<T>(self.blend_defined(fraction)),
        ensures
            lawful::<T>() ==> c == self.spec_blend(fraction),
    {
        let delta = self.b - self.a;
        self.a + delta * fraction
    }
}

/// Rings of unit width around the `y` axis, `a` on the even ones.
#[derive(Clone, Copy, Debug, PartialEq)]
pub struct RingPattern<T> {
    pub a: Color<T>,
    pub b: Color<T>,
}

impl<T: Scalar> RingPattern<T> {
    pub fn color_at(&self, ring: i64) -> (c: Color<T>)
        ensures
            c == (if is_even(ring as int) { self.a } else { self.b }),
    {
        if even(ring) {
            self.a
        } else {
            self.b
        }
    }
}

/// Unit cubes in all three directions, `a` where the cell's coordinates sum to
/// an even number.
#[derive(Clone, Copy, Debug, PartialEq)]
pub struct CheckersPattern<T> {
    pub a: Color<T>,
    pub b: Color<T>,
}

impl<T: Scalar> CheckersPattern<T> {
    pub fn color_at(&self, floor_x: i64, floor_y: i64, floor_z: i64) -> (c: Color<T>)
        ensures
            c == (if is_even(floor_x + floor_y + floor_z) { self.a } else { self.b }),
    {
        // The sum may not fit, its parity is that of the three parities.
        let odd_terms = !even(floor_x) ^ !even(floor_y) ^ !even(floor_z);
        if odd_terms {
            self.b
        } else {
            self.a
        }
    }
}

/// Any of the five patterns.
#[derive(Clone, Copy, Debug, PartialEq)]
pub enum Pattern<T> {
    Solid(SolidPattern<T>),
    Stripe(StripePattern<T>),
    Gradient(GradientPattern<T>),
    Ring(RingPattern<T>),
    Checkers(CheckersPattern<T>),
}

impl<T: Scalar> Pattern<T> {
    /// The scalar type accepts what the pattern computes at `point`.
    pub open spec fn color_at_defined(&self, point: PatternPoint<T>) -> bool {
        match *self {
            Pattern::Gradient(g) => g.blend_defined(point.fraction),
            _ => true,
        }
    }

    /// The color of the pattern at `point`.
    pub open spec fn spec_color_at(&self, point: PatternPoint<T>) -> Color<T> {
        match *self {
            Pattern::Solid(s) => s.0,
            Pattern::Stripe(s) => if is_even(point.floor_x as int) {
                s.a
            } else {
                s.b
            },
            Pattern::Gradient(g) => g.spec_blend(point.fraction),
            Pattern::Ring(r) => if is_even(point.ring as int) {
                r.a
            } else {
                r.b
            },
            Pattern::Checkers(c) => if is_even(point.floor_x + point.floor_y + point.floor_z) {
                c.a
            } else {
                c.b
            },
        }
    }

    /// The color of the pattern at a point of pattern space.
    pub fn color_at(&self, point: &PatternPoint<T>) -> (c: Color<T>)
        requires
            runs::<T>(self.color_at_defined(*point)),
        ensures
            lawful::<T>() || !(*self is Gradient) ==> c == self.spec_color_at(*point),
    {
        match self {
            Pattern::Solid(s) => s.color_at(),
            Pattern::Stripe(s) => s.color_at(point.floor_x),
            Pattern::Gradient(g) => g.color_at(point.fraction),
            Pattern::Ring(r) => r.color_at(point.ring),
            Pattern::Checkers(c) => c.color_at(point.floor_x, point.floor_y, point.floor_z),
        }
    }
}

} // verus!
