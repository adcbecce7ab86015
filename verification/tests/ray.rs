use raytracer::ray::{reflect, Ray};
use raytracer::vector::Vec3;
use std::f64::consts::FRAC_PI_4;

fn relative_eq(a: f64, b: f64) -> bool {
    let difference = (a - b).abs();
    a == b || difference <= f64::EPSILON || difference <= a.abs().max(b.abs()) * f64::EPSILON
}

fn same(a: Vec3<f64>, b: Vec3<f64>) -> bool {
    relative_eq(a.x, b.x) && relative_eq(a.y, b.y) && relative_eq(a.z, b.z)
}

#[test]
fn it_computes_ray_point_at_t() {
    let r = Ray {
        origin: Vec3 { x: 2.0, y: 3.0, z: 4.0 },
        direction: Vec3 { x: 1.0, y: 0.0, z: 0.0 },
    };
    assert!(same(r.point_at(0.0), Vec3 { x: 2.0, y: 3.0, z: 4.0 }));
    assert!(same(r.point_at(-1.0), Vec3 { x: 1.0, y: 3.0, z: 4.0 }));
}

#[test]
fn it_reflects_simple_45_case() {
    assert!(same(
        reflect(&Vec3 { x: 1.0, y: -1.0, z: 0.0 }, &Vec3 { x: 0.0, y: 1.0, z: 0.0 }),
        Vec3 { x: 1.0, y: 1.0, z: 0.0 }
    ));
}

#[test]
fn it_reflects_off_slanted_surface() {
    let k = FRAC_PI_4.sin();
    assert!(same(
        reflect(&Vec3 { x: 0.0, y: -1.0, z: 0.0 }, &Vec3 { x: k, y: k, z: 0.0 }),
        Vec3 { x: 1.0, y: 0.0, z: 0.0 }
    ));
}

#[test]
fn reflection_is_exact_on_integers() {
    let incoming = Vec3 { x: 1, y: -1, z: 0 };
    let normal = Vec3 { x: 0, y: 1, z: 0 };
    assert_eq!(reflect(&incoming, &normal), Vec3 { x: 1, y: 1, z: 0 });
    assert_eq!(
        reflect(&Vec3 { x: 3, y: 4, z: -5 }, &Vec3 { x: 0, y: 0, z: 1 }),
        Vec3 { x: 3, y: 4, z: 5 }
    );
}

#[test]
fn reflecting_twice_gives_the_direction_back() {
    let incoming = Vec3 { x: 7, y: -2, z: 5 };
    let normal = Vec3 { x: 1, y: 0, z: 0 };
    let once = reflect(&incoming, &normal);
    assert_eq!(once, Vec3 { x: -7, y: -2, z: 5 });
    assert_eq!(reflect(&once, &normal), incoming);
}

#[test]
fn a_grazing_direction_is_left_as_it_is() {
    let incoming = Vec3 { x: 2, y: 0, z: -3 };
    let normal = Vec3 { x: 0, y: 1, z: 0 };
    assert_eq!(reflect(&incoming, &normal), incoming);
}

#[test]
fn point_at_walks_along_the_direction() {
    let r = Ray { origin: Vec3 { x: 1, y: 2, z: 3 }, direction: Vec3 { x: 0, y: -2, z: 4 } };
    assert_eq!(r.point_at(0), Vec3 { x: 1, y: 2, z: 3 });
    assert_eq!(r.point_at(3), Vec3 { x: 1, y: -4, z: 15 });
    assert_eq!(r.point_at(-1), Vec3 { x: 1, y: 4, z: -1 });
}
