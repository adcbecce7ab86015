//! Where a ray meets the two primitive surfaces, in the surface's own space:
//! the plane `y = 0`, and the sphere of radius one about the origin.
//!
//! A square root is not an operation of the scalar type. The sphere is
//! therefore taken in two steps: the quadratic of a ray, then, with the root
//! of its discriminant supplied, the two ray parameters.

use crate::ray::Ray;
use crate::scalar::{lawful, runs, Scalar};
use std::ops::Neg;
use vstd::prelude::*;
use vstd::std_specs::cmp::PartialOrdIs;
use vstd::std_specs::ops::{AddSpec, DivSpec, MulSpec, NegSpec, SubSpec};

verus! {

/// A ray whose direction has `y` within `epsilon` of zero runs along the
/// plane.
pub open spec fn runs_along_plane<T: Scalar>(ray: Ray<T>, epsilon: T) -> bool {
    ray.direction.y.is_le(&epsilon) && ray.direction.y.neg_spec().is_le(&epsilon)
}

/// The scalar type accepts every operation of [`ray_plane_intersection`].
pub open spec fn ray_plane_defined<T: Scalar>(ray: Ray<T>, epsilon: T) -> bool {
    &&& ray.direction.y.neg_req()
    &&& !runs_along_plane(ray, epsilon) ==> {
        &&& ray.origin.y.neg_req()
        &&& ray.origin.y.neg_spec().div_req(ray.direction.y)
    }
}

/// `-origin.y / direction.y`, unless the ray runs along the plane.
pub open spec fn spec_ray_plane_intersection<T: Scalar>(ray: Ray<T>, epsilon: T) -> Option<T> {
    if runs_along_plane(ray, epsilon) {
        None
    } else {
        Some(ray.origin.y.neg_spec().div_spec(ray.direction.y))
    }
}

/// The parameter at which the ray crosses the plane `y = 0`, before or behind
/// its origin. A ray parallel to the plane or lying in it crosses nowhere.
pub fn ray_plane_intersection<T: Scalar>(ray: &Ray<T>, epsilon: T) -> (r: Option<T>)
    requires
        runs::<T>(ray_plane_defined(*ray, epsilon)),
    ensures
        lawful::<T>() ==> r == spec_ray_plane_intersection(*ray, epsilon),
{
    let slope = ray.direction.y;
    if slope <= epsilon && slope.neg() <= epsilon {
        return None;
    }
    Some(ray.origin.y.neg() / slope)
}

/// The quadratic `a t² + b t + c` whose roots are the parameters at which a
/// ray meets the unit sphere, by what the roots are computed from.
#[derive(Clone, Copy, Debug, PartialEq)]
pub struct Quadratic<T> {
    pub a: T,
    pub b: T,
    /// `b² - 4 a c`.
    pub discriminant: T,
}

/// `x + x`.
pub open spec fn twice<T: Scalar>(x: T) -> T {
    x.add_spec(x)
}

/// The scalar type accepts every operation of [`ray_sphere_quadratic`].
pub open spec fn ray_sphere_quadratic_defined<T: Scalar>(ray: Ray<T>, one: T) -> bool {
    let a = ray.direction.spec_dot(ray.direction);
    let half_b = ray.direction.spec_dot(ray.origin);
    let b = twice(half_b);
    let c = ray.origin.spec_dot(ray.origin).sub_spec(one);
    let ac = a.mul_spec(c);
    &&& ray.direction.dot_defined(ray.direction)
    &&& ray.direction.dot_defined(ray.origin)
    &&& half_b.add_req(half_b)
    &&& ray.origin.dot_defined(ray.origin)
    &&& ray.origin.spec_dot(ray.origin).sub_req(one)
    &&& b.mul_req(b)
    &&& a.mul_req(c)
    &&& ac.add_req(ac)
    &&& twice(ac).add_req(twice(ac))
    &&& b.mul_spec(b).sub_req(twice(twice(ac)))
}

/// `a = d · d`, `b = 2 (d · o)` and `b² - 4 a c` with `c = o · o - 1`, for
/// the ray from `o` along `d`. Doubles are taken by adding a value to itself.
pub open spec fn spec_ray_sphere_quadratic<T: Scalar>(ray: Ray<T>, one: T) -> Quadratic<T> {
    let a = ray.direction.spec_dot(ray.direction);
    let b = twice(ray.direction.spec_dot(ray.origin));
    let c = ray.origin.spec_dot(ray.origin).sub_spec(one);
    Quadratic { a, b, discriminant: b.mul_spec(b).sub_spec(twice(twice(a.mul_spec(c)))) }
}

/// The quadratic of the points `|o + t d|² = 1` of a ray on the sphere of
/// radius `one` about the origin.
pub fn ray_sphere_quadratic<T: Scalar>(ray: &Ray<T>, one: T) -> (q: Quadratic<T>)
    requires
        runs::<T>(ray_sphere_quadratic_defined(*ray, one)),
    ensures
        lawful::<T>() ==> q == spec_ray_sphere_quadratic(*ray, one),
{
    let a = ray.direction.dot(ray.direction);
    let half_b = ray.direction.dot(ray.origin);
    let b = half_b + half_b;
    let c = ray.origin.dot(ray.origin) - one;
    let ac = a * c;
    let two_ac = ac + ac;
    let discriminant = b * b - (two_ac + two_ac);
    Quadratic { a, b, discriminant }
}

/// The scalar type accepts every operation of [`ray_sphere_intersection`].
pub open spec fn ray_sphere_defined<T: Scalar>(q: Quadratic<T>, root: T, zero: T) -> bool {
    !q.discriminant.is_lt(&zero) ==> {
        &&& q.b.neg_req()
        &&& q.b.neg_spec().sub_req(root)
        &&& q.b.neg_spec().add_req(root)
        &&& q.a.add_req(q.a)
        &&& q.b.neg_spec().sub_spec(root).div_req(twice(q.a))
        &&& q.b.neg_spec().add_spec(root).div_req(twice(q.a))
    }
}

/// `(-b - root) / 2a` and `(-b + root) / 2a`, unless the discriminant is
/// below `zero`.
pub open spec fn spec_ray_sphere_intersection<T: Scalar>(
    q: Quadratic<T>,
    root: T,
    zero: T,
) -> Option<(T, T)> {
    if q.discriminant.is_lt(&zero) {
        None
    } else {
        Some(
            (
                q.b.neg_spec().sub_spec(root).div_spec(twice(q.a)),
                q.b.neg_spec().add_spec(root).div_spec(twice(q.a)),
            ),
        )
    }
}

/// The two parameters at which a ray meets the unit sphere, given the
/// quadratic of the ray and `root`, the square root of its discriminant. A
/// ray with a discriminant below `zero` misses the sphere. A ray that
/// touches it has the same parameter twice.
pub fn ray_sphere_intersection<T: Scalar>(q: &Quadratic<T>, root: T, zero: T) -> (r: Option<(T, T)>)
    requires
        runs::<T>(ray_sphere_defined(*q, root, zero)),
    ensures
        lawful::<T>() ==> r == spec_ray_sphere_intersection(*q, root, zero),
        lawful::<T>() ==> (q.discriminant.is_lt(&zero) <==> r is None),
{
    if q.discriminant < zero {
        return None;
    }
    let minus_b = q.b.neg();
    let two_a = q.a + q.a;
    Some(((minus_b - root) / two_a, (minus_b + root) / two_a))
}

/// The two parameters lie evenly about their middle `-b / 2a`: on integers
/// the two numerators over `2a` are as far below `-b` and above it.
pub proof fn law_roots_lie_evenly(q: Quadratic<i64>, root: i64)
    requires
        ray_sphere_defined(q, root, 0),
        !q.discriminant.is_lt(&0),
    ensures
        q.b.neg_spec() - q.b.neg_spec().sub_spec(root) == q.b.neg_spec().add_spec(root)
            - q.b.neg_spec(),
        q.b.neg_spec() == -q.b,
{
}

/// A ray that touches the sphere meets it once. In exact arithmetic its
/// discriminant is zero and so is the root of it: on integers the two
/// parameters are then the same.
pub proof fn law_touching_ray_meets_once(q: Quadratic<i64>)
    ensures
        spec_ray_sphere_intersection(q, 0, 0) matches Some((t1, t2)) ==> t1 == t2,
{
}

/// A root counts if it is at `epsilon` or beyond: what lies behind the ray's
/// origin or on it is no hit.
pub open spec fn counts<T: Scalar>(t: T, epsilon: T) -> bool {
    t.is_ge(&epsilon)
}

/// The root, if it counts.
pub open spec fn spec_hit<T: Scalar>(root: Option<T>, epsilon: T) -> Option<T> {
    match root {
        Some(t) if counts(t, epsilon) => Some(t),
        _ => None,
    }
}

/// Of the roots that count the smaller, the first of two equal ones.
pub open spec fn spec_nearest_hit<T: Scalar>(roots: Option<(T, T)>, epsilon: T) -> Option<T> {
    match roots {
        Some((t1, t2)) => if counts(t1, epsilon) && counts(t2, epsilon) {
            if t2.is_lt(&t1) {
                Some(t2)
            } else {
                Some(t1)
            }
        } else if counts(t1, epsilon) {
            Some(t1)
        } else if counts(t2, epsilon) {
            Some(t2)
        } else {
            None
        },
        None => None,
    }
}

/// What a shape with one root reports: the root at `epsilon` or beyond.
pub fn hit<T: Scalar>(root: Option<T>, epsilon: T) -> (r: Option<T>)
    ensures
        lawful::<T>() ==> r == spec_hit(root, epsilon),
        r is Some ==> r == root,
{
    match root {
        Some(t) => if t >= epsilon {
            Some(t)
        } else {
            None
        },
        None => None,
    }
}

/// What a shape with two roots reports: roots below `epsilon` are dropped,
/// and of those that are left the smaller is the hit.
pub fn nearest_hit<T: Scalar>(roots: Option<(T, T)>, epsilon: T) -> (r: Option<T>)
    ensures
        lawful::<T>() ==> r == spec_nearest_hit(roots, epsilon),
        r matches Some(t) ==> roots is Some && (t == roots.unwrap().0 || t == roots.unwrap().1),
{
    match roots {
        Some((t1, t2)) => {
            let first = t1 >= epsilon;
            let second = t2 >= epsilon;
            if first && second {
                if t2 < t1 {
                    Some(t2)
                } else {
                    Some(t1)
                }
            } else if first {
                Some(t1)
            } else if second {
                Some(t2)
            } else {
                None
            }
        },
        None => None,
    }
}

} // verus!
