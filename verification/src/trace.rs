//! Shading: ambient light, and for every light its diffuse and specular part.
//!
//! The caller supplies, as an [`Incidence`] for every light, what needs a
//! square root, the scene or a power function: the direction to the light,
//! whether the light is hidden, and the reflection ratio raised to the
//! shininess. All else is computed here.

use crate::color::Color;
use crate::material::Material;
use crate::point_light::PointLight;
use crate::ray::{reflect, reflect_defined, spec_reflect, Ray};
use crate::scalar::{lawful, runs, total, Scalar};
use crate::vector::Vec3;
use std::ops::Neg;
use vstd::prelude::*;
use vstd::std_specs::cmp::PartialOrdIs;
use vstd::std_specs::ops::{AddSpec, MulSpec, NegSpec};

verus! {

/// No light at all, every channel `zero`.
pub open spec fn black<T>(zero: T) -> Color<T> {
    Color(Vec3 { x: zero, y: zero, z: zero })
}

/// The scalar type accepts every operation of [`corrected_normal`].
pub open spec fn corrected_normal_defined<T: Scalar>(
    direction: Vec3<T>,
    normal: Vec3<T>,
    zero: T,
) -> bool {
    &&& direction.dot_defined(normal)
    &&& direction.spec_dot(normal).is_gt(&zero) ==> normal.neg_req()
}

/// `normal`, turned round where a ray along `direction` meets the surface
/// from behind.
pub open spec fn spec_corrected_normal<T: Scalar>(
    direction: Vec3<T>,
    normal: Vec3<T>,
    zero: T,
) -> Vec3<T> {
    if direction.spec_dot(normal).is_gt(&zero) {
        normal.neg_spec()
    } else {
        normal
    }
}

/// The normal that faces the viewer: where `direction · normal` is above
/// `zero` the ray comes from inside the surface, and the normal is negated.
pub fn corrected_normal<T: Scalar>(direction: &Vec3<T>, normal: Vec3<T>, zero: T) -> (n: Vec3<T>)
    requires
        runs::<T>(corrected_normal_defined(*direction, normal, zero)),
    ensures
        lawful::<T>() ==> n == spec_corrected_normal(*direction, normal, zero),
{
    if direction.dot(normal) > zero {
        normal.neg()
    } else {
        normal
    }
}

/// The scalar type accepts every operation of [`shadow_ray`].
pub open spec fn shadow_ray_defined<T: Scalar>(point: Vec3<T>, normal: Vec3<T>, bias: T) -> bool {
    &&& normal.mul_req(bias)
    &&& point.add_req(normal.mul_spec(bias))
}

/// The ray from just above `point` towards a light.
pub open spec fn spec_shadow_ray<T: Scalar>(
    point: Vec3<T>,
    normal: Vec3<T>,
    bias: T,
    shadow_direction: Vec3<T>,
) -> Ray<T> {
    Ray { origin: point.add_spec(normal.mul_spec(bias)), direction: shadow_direction }
}

/// The ray that asks whether a light reaches `point`. It starts at
/// `point + normal * bias`, off the surface, so that rounding cannot make the
/// surface shade itself.
pub fn shadow_ray<T: Scalar>(
    point: &Vec3<T>,
    normal: &Vec3<T>,
    bias: T,
    shadow_direction: Vec3<T>,
) -> (r: Ray<T>)
    requires
        runs::<T>(shadow_ray_defined(*point, *normal, bias)),
    ensures
        lawful::<T>() ==> r == spec_shadow_ray(*point, *normal, bias, shadow_direction),
        r.direction == shadow_direction,
{
    Ray { origin: *point + *normal * bias, direction: shadow_direction }
}

/// `reflect(-shadow_direction, normal) · -direction`: the cosine between the
/// mirrored light and the way back to the eye, for unit vectors.
pub open spec fn spec_reflection_cosine<T: Scalar>(
    direction: Vec3<T>,
    normal: Vec3<T>,
    shadow_direction: Vec3<T>,
) -> T {
    spec_reflect(shadow_direction.neg_spec(), normal).spec_dot(direction.neg_spec())
}

/// The scalar type accepts every operation of [`reflection_ratio`].
pub open spec fn reflection_ratio_defined<T: Scalar>(
    direction: Vec3<T>,
    normal: Vec3<T>,
    shadow_direction: Vec3<T>,
) -> bool {
    &&& shadow_direction.neg_req()
    &&& reflect_defined(shadow_direction.neg_spec(), normal)
    &&& direction.neg_req()
    &&& spec_reflect(shadow_direction.neg_spec(), normal).dot_defined(direction.neg_spec())
}

/// The reflection cosine, where it is above `zero`.
pub open spec fn spec_reflection_ratio<T: Scalar>(
    direction: Vec3<T>,
    normal: Vec3<T>,
    shadow_direction: Vec3<T>,
    zero: T,
) -> Option<T> {
    let ratio = spec_reflection_cosine(direction, normal, shadow_direction);
    if ratio.is_le(&zero) {
        None
    } else {
        Some(ratio)
    }
}

/// `None` if the light is mirrored away from the eye, that is if the ratio is
/// `zero` or below. Otherwise the cosine of the angle between the mirrored
/// light and the direction back along `incoming_ray`.
pub fn reflection_ratio<T: Scalar>(
    incoming_ray: &Ray<T>,
    normal: &Vec3<T>,
    shadow_direction: &Vec3<T>,
    zero: T,
) -> (r: Option<T>)
    requires
        runs::<T>(reflection_ratio_defined(incoming_ray.direction, *normal, *shadow_direction)),
    ensures
        lawful::<T>() ==> r == spec_reflection_ratio(
            incoming_ray.direction,
            *normal,
            *shadow_direction,
            zero,
        ),
{
    let towards_surface = shadow_direction.neg();
    let reflection_direction = reflect(&towards_surface, normal);
    let ratio = reflection_direction.dot(incoming_ray.direction.neg());
    if ratio <= zero {
        None
    } else {
        Some(ratio)
    }
}

/// The scalar type accepts every operation of [`compute_reflection`].
pub open spec fn compute_reflection_defined<T: Scalar>(
    specular: T,
    light_color: Color<T>,
    factor: Option<T>,
) -> bool {
    factor matches Some(f) ==> {
        &&& light_color.mul_req(specular)
        &&& light_color.mul_spec(specular).mul_req(f)
    }
}

/// `light_color * specular * factor`, black without a factor.
pub open spec fn spec_compute_reflection<T: Scalar>(
    specular: T,
    light_color: Color<T>,
    factor: Option<T>,
    zero: T,
) -> Color<T> {
    match factor {
        Some(f) => light_color.mul_spec(specular).mul_spec(f),
        None => black(zero),
    }
}

/// The specular highlight of one light. `factor` is the reflection ratio
/// raised to the material's shininess, `None` where [`reflection_ratio`] gave
/// none.
pub fn compute_reflection<T: Scalar>(
    material: &Material<T>,
    light: &PointLight<T>,
    factor: Option<T>,
    zero: T,
) -> (c: Color<T>)
    requires
        runs::<T>(compute_reflection_defined(material.specular, light.color, factor)),
    ensures
        lawful::<T>() ==> c == spec_compute_reflection(
            material.specular,
            light.color,
            factor,
            zero,
        ),
        factor is None ==> c == black(zero),
{
    match factor {
        Some(f) => light.color * material.specular * f,
        None => Color::new(zero, zero, zero),
    }
}

/// `surface ⊙ light_color * diffuse * facing_ratio`.
pub open spec fn spec_diffuse<T: Scalar>(
    surface: Color<T>,
    light_color: Color<T>,
    diffuse: T,
    facing_ratio: T,
) -> Color<T> {
    surface.spec_mix(light_color).mul_spec(diffuse).mul_spec(facing_ratio)
}

/// How one light reaches a point.
#[derive(Clone, Copy, Debug, PartialEq)]
pub struct Incidence<T> {
    /// The unit direction from the point to the light.
    pub shadow_direction: Vec3<T>,
    /// Whether a shape stands between the point and the light.
    pub occluded: bool,
    /// The highlight factor of [`compute_reflection`].
    pub factor: Option<T>,
}

/// The scalar type accepts every operation of [`light_contribution`].
pub open spec fn light_contribution_defined<T: Scalar>(
    surface: Color<T>,
    material: Material<T>,
    light_color: Color<T>,
    incidence: Option<Incidence<T>>,
    normal: Vec3<T>,
    zero: T,
) -> bool {
    match incidence {
        Some(i) if !i.occluded => {
            let facing_ratio = i.shadow_direction.spec_dot(normal);
            let diffuse = spec_diffuse(surface, light_color, material.diffuse, facing_ratio);
            &&& i.shadow_direction.dot_defined(normal)
            &&& !facing_ratio.is_lt(&zero) ==> {
                &&& surface.mix_defined(light_color)
                &&& surface.spec_mix(light_color).mul_req(material.diffuse)
                &&& surface.spec_mix(light_color).mul_spec(material.diffuse).mul_req(facing_ratio)
                &&& compute_reflection_defined(material.specular, light_color, i.factor)
                &&& diffuse.add_req(
                    spec_compute_reflection(material.specular, light_color, i.factor, zero),
                )
            }
        },
        _ => true,
    }
}

/// What one light adds at a point: nothing where the light has no direction,
/// is hidden or stands behind the surface, else the diffuse part plus the
/// highlight.
pub open spec fn spec_light_contribution<T: Scalar>(
    surface: Color<T>,
    material: Material<T>,
    light_color: Color<T>,
    incidence: Option<Incidence<T>>,
    normal: Vec3<T>,
    zero: T,
) -> Color<T> {
    match incidence {
        Some(i) => {
            let facing_ratio = i.shadow_direction.spec_dot(normal);
            if i.occluded || facing_ratio.is_lt(&zero) {
                black(zero)
            } else {
                spec_diffuse(surface, light_color, material.diffuse, facing_ratio).add_spec(
                    spec_compute_reflection(material.specular, light_color, i.factor, zero),
                )
            }
        },
        None => black(zero),
    }
}

/// What one light adds to the color of a point.
///
/// `surface` is the color of the surface at the point and `normal` the
/// corrected normal. `incidence` is `None` for a light that sits on the
/// point, where [`PointLight::direction_from`] finds no direction.
pub fn light_contribution<T: Scalar>(
    surface: Color<T>,
    material: &Material<T>,
    light: &PointLight<T>,
    incidence: Option<Incidence<T>>,
    normal: &Vec3<T>,
    zero: T,
) -> (c: Color<T>)
    requires
        runs::<T>(
            light_contribution_defined(surface, *material, light.color, incidence, *normal, zero),
        ),
    ensures
        lawful::<T>() ==> c == spec_light_contribution(
            surface,
            *material,
            light.color,
            incidence,
            *normal,
            zero,
        ),
        incidence is None || incidence.unwrap().occluded ==> c == black(zero),
{
    let incidence = match incidence {
        Some(i) => i,
        None => {
            return Color::new(zero, zero, zero);
        },
    };
    if incidence.occluded {
        return Color::new(zero, zero, zero);
    }
    let facing_ratio = incidence.shadow_direction.dot(*normal);
    if facing_ratio < zero {
        return Color::new(zero, zero, zero);
    }
    let effective_color = surface.mix(light.color);
    let diffuse = effective_color * material.diffuse * facing_ratio;
    let specular = compute_reflection(material, light, incidence.factor, zero);
    diffuse + specular
}

/// The contributions summed from the first to the last, starting from black.
pub open spec fn spec_total<T: Scalar>(contributions: Seq<Color<T>>, zero: T) -> Color<T>
    decreases contributions.len(),
{
    if contributions.len() == 0 {
        black(zero)
    } else {
        spec_total(contributions.drop_last(), zero).add_spec(contributions.last())
    }
}

/// The scalar type accepts every addition of [`spec_total`].
pub open spec fn total_defined<T: Scalar>(contributions: Seq<Color<T>>, zero: T) -> bool
    decreases contributions.len(),
{
    contributions.len() > 0 ==> {
        &&& total_defined(contributions.drop_last(), zero)
        &&& spec_total(contributions.drop_last(), zero).add_req(contributions.last())
    }
}

/// What each light contributes, in the lights' order.
pub open spec fn spec_contributions<T: Scalar>(
    surface: Color<T>,
    material: Material<T>,
    lights: Seq<PointLight<T>>,
    incidences: Seq<Option<Incidence<T>>>,
    normal: Vec3<T>,
    zero: T,
) -> Seq<Color<T>> {
    Seq::new(
        lights.len(),
        |i: int|
            spec_light_contribution(
                surface,
                material,
                lights[i].color,
                incidences[i],
                normal,
                zero,
            ),
    )
}

/// The scalar type accepts every operation of [`shade_intersection`].
pub open spec fn shade_intersection_defined<T: Scalar>(
    surface: Color<T>,
    material: Material<T>,
    lights: Seq<PointLight<T>>,
    incidences: Seq<Option<Incidence<T>>>,
    normal: Vec3<T>,
    zero: T,
) -> bool {
    let contributions = spec_contributions(surface, material, lights, incidences, normal, zero);
    &&& forall|i: int|
        0 <= i < lights.len() ==> #[trigger] light_contribution_defined(
            surface,
            material,
            lights[i].color,
            incidences[i],
            normal,
            zero,
        )
    &&& surface.mul_req(material.ambient)
    &&& total_defined(contributions, zero)
    &&& surface.mul_spec(material.ambient).add_req(spec_total(contributions, zero))
}

/// `surface * ambient` plus the sum of what the lights contribute.
pub open spec fn spec_shade_intersection<T: Scalar>(
    surface: Color<T>,
    material: Material<T>,
    lights: Seq<PointLight<T>>,
    incidences: Seq<Option<Incidence<T>>>,
    normal: Vec3<T>,
    zero: T,
) -> Color<T> {
    surface.mul_spec(material.ambient).add_spec(
        spec_total(
            spec_contributions(surface, material, lights, incidences, normal, zero),
            zero,
        ),
    )
}

/// The color of a point before it is saturated: the ambient part of its
/// surface color plus what every light contributes, summed in the lights'
/// order.
///
/// `surface` is the color of the surface at the point, `normal` the corrected
/// normal, and `incidences[i]` how `lights[i]` reaches the point.
pub fn shade_intersection<T: Scalar>(
    surface: Color<T>,
    material: &Material<T>,
    lights: &Vec<PointLight<T>>,
    incidences: &Vec<Option<Incidence<T>>>,
    normal: &Vec3<T>,
    zero: T,
) -> (c: Color<T>)
    requires
        incidences.len() == lights.len(),
        runs::<T>(
            shade_intersection_defined(surface, *material, lights@, incidences@, *normal, zero),
        ),
    ensures
        lawful::<T>() ==> c == spec_shade_intersection(
            surface,
            *material,
            lights@,
            incidences@,
            *normal,
            zero,
        ),
{
    let ghost contributions = spec_contributions(
        surface,
        *material,
        lights@,
        incidences@,
        *normal,
        zero,
    );
    let ambient = surface * material.ambient;
    let mut sum = Color::new(zero, zero, zero);
    let mut i: usize = 0;
    while i < lights.len()
        invariant
            i <= lights.len(),
            incidences.len() == lights.len(),
            contributions == spec_contributions(
                surface,
                *material,
                lights@,
                incidences@,
                *normal,
                zero,
            ),
            total::<T>() || (lawful::<T>() && shade_intersection_defined(
                surface,
                *material,
                lights@,
                incidences@,
                *normal,
                zero,
            )),
            lawful::<T>() ==> sum == spec_total(contributions.take(i as int), zero),
        decreases lights.len() - i,
    {
        proof {
            assert(contributions.take(i as int + 1).drop_last() == contributions.take(i as int));
            assert(contributions.take(i as int + 1).last() == contributions[i as int]);
            if !total::<T>() {
                lemma_total_prefix(contributions, zero, i as int + 1);
                assert(light_contribution_defined(
                    surface,
                    *material,
                    lights@[i as int].color,
                    incidences@[i as int],
                    *normal,
                    zero,
                ));
            }
        }
        let contribution = light_contribution(
            surface,
            material,
            &lights[i],
            incidences[i],
            normal,
            zero,
        );
        sum = sum + contribution;
        i += 1;
    }
    proof {
        assert(contributions.take(i as int) == contributions);
    }
    ambient + sum
}

/// A sum that is defined is defined up to any of its terms.
proof fn lemma_total_prefix<T: Scalar>(contributions: Seq<Color<T>>, zero: T, n: int)
    requires
        total_defined(contributions, zero),
        0 <= n <= contributions.len(),
    ensures
        total_defined(contributions.take(n), zero),
    decreases contributions.len(),
{
    if n == contributions.len() {
        assert(contributions.take(n) == contributions);
    } else {
        lemma_total_prefix(contributions.drop_last(), zero, n);
        assert(contributions.drop_last().take(n) == contributions.take(n));
    }
}

/// The color of a traced ray: the shaded color of what it hit, every channel
/// saturated into `[zero, one]`, and black where it hit nothing.
pub fn trace<T: Scalar>(shaded: Option<Color<T>>, zero: T, one: T) -> (c: Color<T>)
    ensures
        lawful::<T>() ==> c == (match shaded {
            Some(color) => color.spec_clamp(zero, one),
            None => black(zero),
        }),
        shaded is None ==> c == black(zero),
{
    match shaded {
        Some(color) => color.clamp(zero, one),
        None => Color::new(zero, zero, zero),
    }
}

} // verus!
