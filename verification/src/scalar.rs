//! The number type the geometry and the shading are written over.

use std::ops::{Add, Div, Mul, Neg, Sub};
use vstd::prelude::*;
use vstd::std_specs::cmp::PartialOrdSpec;
use vstd::std_specs::ops::{AddSpec, DivSpec, MulSpec, NegSpec, SubSpec};

verus! {

/// A number type with the four operations, negation and an order: every
/// primitive signed number is one.
pub trait Scalar: Copy + Add<Output = Self> + Sub<Output = Self> + Mul<Output = Self> + Div<
    Output = Self,
> + Neg<Output = Self> + PartialOrd {

}

impl<T> Scalar for T where
    T: Copy + Add<Output = T> + Sub<Output = T> + Mul<Output = T> + Div<Output = T> + Neg<
        Output = T,
    > + PartialOrd,
 {

}

/// The operators and comparisons of `T` return what `vstd` states of them, as
/// those of the integer types do.
pub open spec fn lawful<T: Scalar>() -> bool {
    &&& T::obeys_add_spec()
    &&& T::obeys_sub_spec()
    &&& T::obeys_mul_spec()
    &&& T::obeys_div_spec()
    &&& T::obeys_neg_spec()
    &&& T::obeys_partial_cmp_spec()
}

/// The signed integer types are lawful.
pub proof fn law_integers_are_lawful()
    ensures
        lawful::<i8>(),
        lawful::<i16>(),
        lawful::<i32>(),
        lawful::<i64>(),
        lawful::<i128>(),
        lawful::<isize>(),
{
}

/// `T` takes every operation on every value, as number types do that have a
/// value for what overflows or is undefined.
pub open spec fn total<T: Scalar>() -> bool {
    &&& forall|a: T, b: T| #[trigger] a.add_req(b)
    &&& forall|a: T, b: T| #[trigger] a.sub_req(b)
    &&& forall|a: T, b: T| #[trigger] a.mul_req(b)
    &&& forall|a: T, b: T| #[trigger] a.div_req(b)
    &&& forall|a: T| #[trigger] a.neg_req()
}

/// A computation can be run on `T`: `T` takes every operation, or it is
/// lawful and takes every operation of this computation, which is what
/// `defined` says.
pub open spec fn runs<T: Scalar>(defined: bool) -> bool {
    total::<T>() || (lawful::<T>() && defined)
}

} // verus!
