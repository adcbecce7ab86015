use raytracer::color::Color;
use raytracer::pattern::{
    even, CheckersPattern, GradientPattern, Pattern, PatternPoint, RingPattern, SolidPattern,
    StripePattern,
};

fn a() -> Color<f64> {
    Color::new(1.0, 1.0, 1.0)
}

fn b() -> Color<f64> {
    Color::new(0.0, 0.0, 0.0)
}

/// What the patterns read of the point `(x, y, z)`.
fn at(x: f64, y: f64, z: f64) -> PatternPoint<f64> {
    PatternPoint {
        floor_x: x.floor() as i64,
        floor_y: y.floor() as i64,
        floor_z: z.floor() as i64,
        ring: (x * x + z * z).sqrt().floor() as i64,
        fraction: x - x.floor(),
    }
}

#[test]
fn even_knows_negative_numbers() {
    assert!(even(0));
    assert!(even(2));
    assert!(even(-2));
    assert!(!even(1));
    assert!(!even(-1));
    assert!(!even(i64::MAX));
    assert!(even(i64::MIN));
}

#[test]
fn solid_is_the_same_everywhere() {
    let p = Pattern::Solid(SolidPattern(a()));
    assert_eq!(p.color_at(&at(0.0, 0.0, 0.0)), a());
    assert_eq!(p.color_at(&at(-17.5, 3.0, 99.25)), a());
}

#[test]
fn stripes_alternate_along_x() {
    let p = Pattern::Stripe(StripePattern { a: a(), b: b() });
    assert_eq!(p.color_at(&at(0.0, 0.0, 0.0)), a());
    assert_eq!(p.color_at(&at(0.9, 5.0, -3.0)), a());
    assert_eq!(p.color_at(&at(1.0, 0.0, 0.0)), b());
    assert_eq!(p.color_at(&at(2.5, 0.0, 0.0)), a());
    assert_eq!(p.color_at(&at(-0.1, 0.0, 0.0)), b());
    assert_eq!(p.color_at(&at(-1.1, 0.0, 0.0)), a());
}

#[test]
fn gradient_blends_across_each_unit_of_x() {
    let g = GradientPattern { a: Color::new(1.0, 0.0, 0.5), b: Color::new(0.0, 1.0, 0.5) };
    let p = Pattern::Gradient(g);
    assert_eq!(p.color_at(&at(0.0, 0.0, 0.0)), Color::new(1.0, 0.0, 0.5));
    assert_eq!(p.color_at(&at(0.25, 0.0, 0.0)), Color::new(0.75, 0.25, 0.5));
    assert_eq!(p.color_at(&at(0.5, 7.0, 7.0)), Color::new(0.5, 0.5, 0.5));
    assert_eq!(p.color_at(&at(3.75, 0.0, 0.0)), Color::new(0.25, 0.75, 0.5));
    assert_eq!(p.color_at(&at(-0.25, 0.0, 0.0)), Color::new(0.25, 0.75, 0.5));
    assert_eq!(g.color_at(0.5), Color::new(0.5, 0.5, 0.5));
}

#[test]
fn gradient_is_exact_on_integers() {
    let g = GradientPattern { a: Color::new(10, 20, 30), b: Color::new(13, 18, 30) };
    assert_eq!(g.color_at(0), Color::new(10, 20, 30));
    assert_eq!(g.color_at(1), Color::new(13, 18, 30));
    assert_eq!(g.color_at(4), Color::new(22, 12, 30));
}

#[test]
fn rings_alternate_with_the_distance_from_the_axis() {
    let p = Pattern::Ring(RingPattern { a: a(), b: b() });
    assert_eq!(p.color_at(&at(0.0, 0.0, 0.0)), a());
    assert_eq!(p.color_at(&at(0.6, 9.0, 0.6)), a());
    assert_eq!(p.color_at(&at(1.0, 0.0, 0.0)), b());
    assert_eq!(p.color_at(&at(0.0, 0.0, -1.5)), b());
    assert_eq!(p.color_at(&at(0.8, 0.0, 0.8)), b());
    assert_eq!(p.color_at(&at(-2.0, 0.0, 0.0)), a());
}

#[test]
fn checkers_alternate_in_all_three_directions() {
    let p = Pattern::Checkers(CheckersPattern { a: a(), b: b() });
    assert_eq!(p.color_at(&at(0.0, 0.0, 0.0)), a());
    assert_eq!(p.color_at(&at(0.99, 0.0, 0.0)), a());
    assert_eq!(p.color_at(&at(1.01, 0.0, 0.0)), b());
    assert_eq!(p.color_at(&at(0.0, 1.01, 0.0)), b());
    assert_eq!(p.color_at(&at(0.0, 0.0, 1.01)), b());
    assert_eq!(p.color_at(&at(1.5, 1.5, 0.0)), a());
    assert_eq!(p.color_at(&at(1.5, 1.5, 1.5)), b());
    assert_eq!(p.color_at(&at(-0.5, 0.0, 0.0)), b());
    assert_eq!(p.color_at(&at(-0.5, -0.5, 0.0)), a());
}

#[test]
fn checkers_count_cells_whose_sum_does_not_fit() {
    let c = CheckersPattern { a: a(), b: b() };
    assert_eq!(c.color_at(i64::MAX, i64::MAX, 0), a());
    assert_eq!(c.color_at(i64::MAX, i64::MAX, i64::MAX), b());
    assert_eq!(c.color_at(i64::MIN, i64::MIN, -1), b());
    assert_eq!(c.color_at(i64::MIN, i64::MAX, 1), a());
}

#[test]
fn each_pattern_answers_by_what_it_reads() {
    assert_eq!(SolidPattern(a()).color_at(), a());
    assert_eq!(StripePattern { a: a(), b: b() }.color_at(-3), b());
    assert_eq!(RingPattern { a: a(), b: b() }.color_at(4), a());
    assert_eq!(CheckersPattern { a: a(), b: b() }.color_at(1, 2, 3), a());
}
