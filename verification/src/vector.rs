//! Three-component vectors over any scalar with `+`, `-` and `*`.
//!
//! Every operation is stated over the scalar's own operator specifications, so
//! the same code serves exact integers and approximate reals alike.

use crate::scalar::{lawful, runs, Scalar};
use std::ops::{Add, Div, Mul, Neg, Sub};
use vstd::prelude::*;
use vstd::std_specs::cmp::PartialOrdIs;
use vstd::std_specs::ops::{AddSpec, DivSpec, MulSpec, NegSpec, SubSpec};

verus! {

/// A free direction or a position in space, by its three coordinates.
#[derive(Clone, Copy, Debug, PartialEq)]
pub struct Vec3<T> {
    pub x: T,
    pub y: T,
    pub z: T,
}

impl<T> Vec3<T> where T: Copy + Add<Output = T> + Sub<Output = T> + Mul<Output = T> {
    /// Sums, differences and products of `T` are what `vstd` states of them.
    pub open spec fn scalar_obeys() -> bool {
        T::obeys_add_spec() && T::obeys_sub_spec() && T::obeys_mul_spec()
    }

    /// `T` takes every sum, difference and product.
    pub open spec fn scalar_total() -> bool {
        &&& forall|a: T, b: T| #[trigger] a.add_req(b)
        &&& forall|a: T, b: T| #[trigger] a.sub_req(b)
        &&& forall|a: T, b: T| #[trigger] a.mul_req(b)
    }

    /// A computation can be run on `T`: `T` takes every operation, or its
    /// operators obey and it takes those of this computation.
    pub open spec fn admits(defined: bool) -> bool {
        Self::scalar_total() || (Self::scalar_obeys() && defined)
    }

    /// `a * b - c * d`, the shape of every coordinate of a cross product.
    pub open spec fn spec_minor(a: T, b: T, c: T, d: T) -> T {
        a.mul_spec(b).sub_spec(c.mul_spec(d))
    }

    /// The scalar type accepts every operation of `a * b - c * d`.
    pub open spec fn minor_defined(a: T, b: T, c: T, d: T) -> bool {
        a.mul_req(b) && c.mul_req(d) && a.mul_spec(b).sub_req(c.mul_spec(d))
    }

    /// The scalar type accepts every operation of `self × other`.
    pub open spec fn cross_defined(self, other: Self) -> bool {
        &&& Self::minor_defined(self.y, other.z, self.z, other.y)
        &&& Self::minor_defined(self.z, other.x, self.x, other.z)
        &&& Self::minor_defined(self.x, other.y, self.y, other.x)
    }

    /// The cross product `self × other`.
    pub open spec fn spec_cross(self, other: Self) -> Self {
        Vec3 {
            x: Self::spec_minor(self.y, other.z, self.z, other.y),
            y: Self::spec_minor(self.z, other.x, self.x, other.z),
            z: Self::spec_minor(self.x, other.y, self.y, other.x),
        }
    }

    /// The cross product `self × other`.
    pub fn cross(self, other: Self) -> (r: Self)
        requires
            Self::admits(self.cross_defined(other)),
        ensures
            Self::scalar_obeys() ==> r == self.spec_cross(other),
    {
        Self {
            x: self.y * other.z - self.z * other.y,
            y: self.z * other.x - self.x * other.z,
            z: self.x * other.y - self.y * other.x,
        }
    }

    /// The scalar type accepts every operation of `self · other`.
    pub open spec fn dot_defined(self, other: Self) -> bool {
        let xx = self.x.mul_spec(other.x);
        let yy = self.y.mul_spec(other.y);
        let zz = self.z.mul_spec(other.z);
        &&& self.x.mul_req(other.x)
        &&& self.y.mul_req(other.y)
        &&& self.z.mul_req(other.z)
        &&& xx.add_req(yy)
        &&& xx.add_spec(yy).add_req(zz)
    }

    /// The dot product `self · other`, summed from `x` to `z`.
    pub open spec fn spec_dot(self, other: Self) -> T {
        self.x.mul_spec(other.x).add_spec(self.y.mul_spec(other.y)).add_spec(
            self.z.mul_spec(other.z),
        )
    }

    /// The dot product `self · other`.
    pub fn dot(self, other: Self) -> (r: T)
        requires
            Self::admits(self.dot_defined(other)),
        ensures
            Self::scalar_obeys() ==> r == self.spec_dot(other),
    {
        self.x * other.x + self.y * other.y + self.z * other.z
    }
}

/// On integers the cross product changes its sign when its factors change
/// places.
pub proof fn law_cross_anticommutes(u: Vec3<i64>, v: Vec3<i64>)
    requires
        u.cross_defined(v),
        v.cross_defined(u),
    ensures
        u.spec_cross(v).x == -v.spec_cross(u).x,
        u.spec_cross(v).y == -v.spec_cross(u).y,
        u.spec_cross(v).z == -v.spec_cross(u).z,
{
    lemma_products_commute(u.y, v.z);
    lemma_products_commute(u.z, v.y);
    lemma_products_commute(u.z, v.x);
    lemma_products_commute(u.x, v.z);
    lemma_products_commute(u.x, v.y);
    lemma_products_commute(u.y, v.x);
}

/// On integers a cross product is perpendicular to both of its factors.
pub proof fn law_cross_is_perpendicular(u: Vec3<i64>, v: Vec3<i64>)
    requires
        u.cross_defined(v),
        u.dot_defined(u.spec_cross(v)),
        v.dot_defined(u.spec_cross(v)),
    ensures
        u.spec_dot(u.spec_cross(v)) == 0,
        v.spec_dot(u.spec_cross(v)) == 0,
{
    let (a, b, c) = (u.x as int, u.y as int, u.z as int);
    let (d, e, f) = (v.x as int, v.y as int, v.z as int);
    assert(a * (b * f - c * e) + b * (c * d - a * f) + c * (a * e - b * d) == 0)
        by (nonlinear_arith);
    assert(d * (b * f - c * e) + e * (c * d - a * f) + f * (a * e - b * d) == 0)
        by (nonlinear_arith);
}

proof fn lemma_products_commute(a: i64, b: i64)
    ensures
        a * b == b * a,
{
    assert(a * b == b * a) by (nonlinear_arith);
}

impl<T: Scalar> Vec3<T> {
    /// The vector divided by `norm`, where `norm` is above `zero`; else the
    /// vector itself.
    pub open spec fn spec_normalize(self, norm: T, zero: T) -> Self {
        if zero.is_lt(&norm) {
            self.div_spec(norm)
        } else {
            self
        }
    }

    /// The vector at unit length, given its length `norm`. A vector whose
    /// length is not above `zero` has no direction: it is returned as it is,
    /// so that no division by nothing can bring in what is no number.
    pub fn normalize(self, norm: T, zero: T) -> (r: Self)
        requires
            runs::<T>(zero.is_lt(&norm) ==> self.div_req(norm)),
        ensures
            lawful::<T>() ==> r == self.spec_normalize(norm, zero),
    {
        if zero < norm {
            self / norm
        } else {
            self
        }
    }
}

impl<T: Add<Output = T>> vstd::std_specs::ops::AddSpecImpl for Vec3<T> {
    open spec fn obeys_add_spec() -> bool {
        T::obeys_add_spec()
    }

    open spec fn add_req(self, other: Self) -> bool {
        self.x.add_req(other.x) && self.y.add_req(other.y) && self.z.add_req(other.z)
    }

    open spec fn add_spec(self, other: Self) -> Self {
        Vec3 {
            x: self.x.add_spec(other.x),
            y: self.y.add_spec(other.y),
            z: self.z.add_spec(other.z),
        }
    }
}

/// Coordinate by coordinate.
impl<T: Add<Output = T>> Add for Vec3<T> {
    type Output = Self;

    fn add(self, other: Self) -> Self {
        Vec3 { x: self.x + other.x, y: self.y + other.y, z: self.z + other.z }
    }
}

impl<T: Sub<Output = T>> vstd::std_specs::ops::SubSpecImpl for Vec3<T> {
    open spec fn obeys_sub_spec() -> bool {
        T::obeys_sub_spec()
    }

    open spec fn sub_req(self, other: Self) -> bool {
        self.x.sub_req(other.x) && self.y.sub_req(other.y) && self.z.sub_req(other.z)
    }

    open spec fn sub_spec(self, other: Self) -> Self {
        Vec3 {
            x: self.x.sub_spec(other.x),
            y: self.y.sub_spec(other.y),
            z: self.z.sub_spec(other.z),
        }
    }
}

/// Coordinate by coordinate.
impl<T: Sub<Output = T>> Sub for Vec3<T> {
    type Output = Self;

    fn sub(self, other: Self) -> Self {
        Vec3 { x: self.x - other.x, y: self.y - other.y, z: self.z - other.z }
    }
}

impl<T: Copy + Mul<Output = T>> vstd::std_specs::ops::MulSpecImpl<T> for Vec3<T> {
    open spec fn obeys_mul_spec() -> bool {
        T::obeys_mul_spec()
    }

    open spec fn mul_req(self, rhs: T) -> bool {
        self.x.mul_req(rhs) && self.y.mul_req(rhs) && self.z.mul_req(rhs)
    }

    open spec fn mul_spec(self, rhs: T) -> Self {
        Vec3 { x: self.x.mul_spec(rhs), y: self.y.mul_spec(rhs), z: self.z.mul_spec(rhs) }
    }
}

/// Every coordinate times the scalar on the right.
impl<T: Copy + Mul<Output = T>> Mul<T> for Vec3<T> {
    type Output = Self;

    fn mul(self, rhs: T) -> Self {
        Vec3 { x: self.x * rhs, y: self.y * rhs, z: self.z * rhs }
    }
}

impl<T: Copy + Div<Output = T>> vstd::std_specs::ops::DivSpecImpl<T> for Vec3<T> {
    open spec fn obeys_div_spec() -> bool {
        T::obeys_div_spec()
    }

    open spec fn div_req(self, rhs: T) -> bool {
        self.x.div_req(rhs) && self.y.div_req(rhs) && self.z.div_req(rhs)
    }

    open spec fn div_spec(self, rhs: T) -> Self {
        Vec3 { x: self.x.div_spec(rhs), y: self.y.div_spec(rhs), z: self.z.div_spec(rhs) }
    }
}

/// Every coordinate divided by the scalar on the right.
impl<T: Copy + Div<Output = T>> Div<T> for Vec3<T> {
    type Output = Self;

    fn div(self, rhs: T) -> Self {
        Vec3 { x: self.x / rhs, y: self.y / rhs, z: self.z / rhs }
    }
}

impl<T: Neg<Output = T>> vstd::std_specs::ops::NegSpecImpl for Vec3<T> {
    open spec fn obeys_neg_spec() -> bool {
        T::obeys_neg_spec()
    }

    open spec fn neg_req(self) -> bool {
        self.x.neg_req() && self.y.neg_req() && self.z.neg_req()
    }

    open spec fn neg_spec(self) -> Self {
        Vec3 { x: self.x.neg_spec(), y: self.y.neg_spec(), z: self.z.neg_spec() }
    }
}

/// The opposite vector.
impl<T: Neg<Output = T>> Neg for Vec3<T> {
    type Output = Self;

    fn neg(self) -> Self {
        Vec3 { x: self.x.neg(), y: self.y.neg(), z: self.z.neg() }
    }
}

} // verus!
