use raytracer::color::Color;
use raytracer::vector::Vec3;

fn relative_eq(a: f64, b: f64) -> bool {
    let difference = (a - b).abs();
    a == b || difference <= f64::EPSILON || difference <= a.abs().max(b.abs()) * f64::EPSILON
}

fn same(a: Color<f64>, b: Color<f64>) -> bool {
    relative_eq(a.0.x, b.0.x) && relative_eq(a.0.y, b.0.y) && relative_eq(a.0.z, b.0.z)
}

#[test]
fn it_mixes_with_hadamard_product() {
    let a = Color(Vec3 { x: 1.0, y: 0.2, z: 0.4 });
    let b = Color(Vec3 { x: 0.9, y: 1.0, z: 0.1 });
    let Color(u) = a.mix(b);
    assert!(same(Color(u), Color(Vec3 { x: 0.9, y: 0.2, z: 0.04 })));
}

#[test]
fn new_takes_red_green_blue() {
    let c = Color::new(0.25, 0.5, 0.75);
    assert_eq!(c, Color(Vec3 { x: 0.25, y: 0.5, z: 0.75 }));
    assert_eq!(c.0.x, 0.25);
    assert_eq!(c.0.z, 0.75);
}

#[test]
fn mix_is_exact_on_integers() {
    let a = Color::new(1, 2, 4);
    let b = Color::new(9, 10, 1);
    assert_eq!(a.mix(b), Color::new(9, 20, 4));
    assert_eq!(b.mix(a), Color::new(9, 20, 4));
}

#[test]
fn clamp_saturates_each_channel() {
    let c = Color::new(1.9, -0.5, 0.25);
    assert_eq!(c.clamp(0.0, 1.0), Color::new(1.0, 0.0, 0.25));
    let inside = Color::new(0.0, 1.0, 0.5);
    assert_eq!(inside.clamp(0.0, 1.0), inside);
}

#[test]
fn clamp_sends_what_is_no_number_to_the_upper_bound() {
    let c = Color::new(f64::NAN, f64::INFINITY, f64::NEG_INFINITY);
    assert_eq!(c.clamp(0.0, 1.0), Color::new(1.0, 1.0, 0.0));
}

#[test]
fn colors_add_subtract_and_scale() {
    let a = Color::new(1, 2, 3);
    let b = Color::new(10, 20, 30);
    assert_eq!(a + b, Color::new(11, 22, 33));
    assert_eq!(b - a, Color::new(9, 18, 27));
    assert_eq!(a * 5, Color::new(5, 10, 15));
}
