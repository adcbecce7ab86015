use raytracer::color::Color;
use raytracer::point_light::PointLight;
use raytracer::vector::Vec3;

fn light() -> PointLight<f64> {
    PointLight { color: Color::new(1.0, 1.0, 1.0), position: Vec3 { x: 3.0, y: 0.0, z: -4.0 } }
}

#[test]
fn the_direction_is_the_way_to_the_light_over_its_length() {
    let origin = Vec3 { x: 0.0, y: 0.0, z: 0.0 };
    let (distance, direction) = light().direction_from(&origin, 5.0, 0.0).unwrap();
    assert_eq!(distance, 5.0);
    assert_eq!(direction, Vec3 { x: 0.6, y: 0.0, z: -0.8 });
    assert!((direction.dot(direction) - 1.0).abs() < 1e-15);
}

#[test]
fn the_direction_is_taken_from_the_point() {
    let point = Vec3 { x: 3.0, y: 2.0, z: -4.0 };
    let (distance, direction) = light().direction_from(&point, 2.0, 0.0).unwrap();
    assert_eq!(distance, 2.0);
    assert_eq!(direction, Vec3 { x: 0.0, y: -1.0, z: 0.0 });
}

#[test]
fn a_light_on_the_point_has_no_direction() {
    let point = light().position;
    assert_eq!(light().direction_from(&point, 0.0, 0.0), None);
    assert_eq!(light().direction_from(&point, f64::NAN, 0.0), None);
    assert_eq!(light().direction_from(&point, -1.0, 0.0), None);
}

#[test]
fn the_direction_is_exact_on_integers() {
    let light = PointLight { color: Color::new(1, 1, 1), position: Vec3 { x: 6, y: -9, z: 3 } };
    let point = Vec3 { x: 0, y: 0, z: 0 };
    assert_eq!(light.direction_from(&point, 3, 0), Some((3, Vec3 { x: 2, y: -3, z: 1 })));
    assert_eq!(light.direction_from(&point, 0, 0), None);
}
