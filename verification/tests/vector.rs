use raytracer::vector::Vec3;
use std::ops::Neg;

#[test]
fn it_computes_cross_product() {
    let u = Vec3 { x: 1, y: 2, z: 3 };
    let v = Vec3 { x: 2, y: 3, z: 4 };
    assert_eq!(u.cross(v), Vec3 { x: -1, y: 2, z: -1 });
    assert_eq!(v.cross(u), Vec3 { x: 1, y: -2, z: 1 });
}

#[test]
fn it_computes_dot_product() {
    let u = Vec3 { x: 1, y: 2, z: 3 };
    let v = Vec3 { x: 2, y: 3, z: 4 };
    assert_eq!(u.dot(v), 20);
}

#[test]
fn cross_of_the_axes_follows_the_right_hand() {
    let x = Vec3 { x: 1, y: 0, z: 0 };
    let y = Vec3 { x: 0, y: 1, z: 0 };
    let z = Vec3 { x: 0, y: 0, z: 1 };
    assert_eq!(x.cross(y), z);
    assert_eq!(y.cross(z), x);
    assert_eq!(z.cross(x), y);
    assert_eq!(x.cross(x), Vec3 { x: 0, y: 0, z: 0 });
}

#[test]
fn cross_is_perpendicular_to_both() {
    let u = Vec3 { x: 3i64, y: -7, z: 2 };
    let v = Vec3 { x: -4i64, y: 1, z: 9 };
    let w = u.cross(v);
    assert_eq!(w.dot(u), 0);
    assert_eq!(w.dot(v), 0);
    assert_eq!(u.cross(v), v.cross(u).neg());
}

#[test]
fn it_adds_and_subtracts_by_coordinate() {
    let u = Vec3 { x: 1, y: 2, z: 3 };
    let v = Vec3 { x: 10, y: -20, z: 30 };
    assert_eq!(u + v, Vec3 { x: 11, y: -18, z: 33 });
    assert_eq!(u - v, Vec3 { x: -9, y: 22, z: -27 });
    assert_eq!(v - v, Vec3 { x: 0, y: 0, z: 0 });
}

#[test]
fn it_scales_by_a_number_on_the_right() {
    let u = Vec3 { x: 1, y: -2, z: 3 };
    assert_eq!(u * 4, Vec3 { x: 4, y: -8, z: 12 });
    assert_eq!(u * 0, Vec3 { x: 0, y: 0, z: 0 });
    assert_eq!(Vec3 { x: 8, y: -6, z: 2 } / 2, Vec3 { x: 4, y: -3, z: 1 });
    assert_eq!(u.neg(), Vec3 { x: -1, y: 2, z: -3 });
}

#[test]
fn it_works_on_reals_too() {
    let u = Vec3 { x: 0.5, y: 0.25, z: -2.0 };
    let v = Vec3 { x: 4.0, y: 8.0, z: 0.5 };
    assert_eq!(u.dot(v), 3.0);
    assert_eq!(u.cross(v), Vec3 { x: 16.125, y: -8.25, z: 3.0 });
    assert_eq!(u / 0.5, Vec3 { x: 1.0, y: 0.5, z: -4.0 });
}

#[test]
fn normalize_divides_by_the_length() {
    let u = Vec3 { x: 3.0, y: 0.0, z: -4.0 };
    assert_eq!(u.normalize(5.0, 0.0), Vec3 { x: 0.6, y: 0.0, z: -0.8 });
    let exact = Vec3 { x: 6, y: -9, z: 3 };
    assert_eq!(exact.normalize(3, 0), Vec3 { x: 2, y: -3, z: 1 });
}

#[test]
fn a_vector_without_length_is_left_as_it_is() {
    let nothing = Vec3 { x: 0.0, y: 0.0, z: 0.0 };
    assert_eq!(nothing.normalize(0.0, 0.0), nothing);
    let u = Vec3 { x: 1.0, y: 2.0, z: 3.0 };
    assert_eq!(u.normalize(f64::NAN, 0.0), u);
    assert_eq!(u.normalize(-2.0, 0.0), u);
}

#[test]
fn a_normalized_vector_has_unit_length() {
    let vectors = [
        Vec3 { x: 1.0, y: 1.0, z: 1.0 },
        Vec3 { x: 0.0, y: 0.5f64.sqrt(), z: -(0.5f64.sqrt()) },
        // a normal of a sphere squeezed to half its height
        Vec3 { x: 0.0, y: 2.0 * 0.5f64.sqrt(), z: -(0.5f64.sqrt()) },
        Vec3 { x: -3e-9, y: 4e-9, z: 0.0 },
        Vec3 { x: 1e12, y: -2e12, z: 2e12 },
    ];
    for u in vectors {
        let n = u.normalize(u.dot(u).sqrt(), 0.0);
        assert!((n.dot(n) - 1.0).abs() < 1e-15);
        assert!((n.dot(u) - u.dot(u).sqrt()).abs() <= 1e-15 * u.dot(u).sqrt());
    }
}
