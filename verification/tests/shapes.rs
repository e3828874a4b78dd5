use shape_ledger::bad_shape::{area_1, BadShape};
use shape_ledger::area::{area, area_12, checked_area, Area};
use shape_ledger::shape::{
    is_two_big_circles_better, is_two_big_circles_normal, is_two_circle_better,
    is_two_circle_normal, InvalidGeometry, Shape, BIG_RADIUS,
};

fn circle(radius: u32) -> Shape {
    Shape::Circle { radius }
}

fn rectangle(side: u32, length: u32) -> Shape {
    Shape::Rectangle { side, length }
}

fn triangle(base: u32, height: u32) -> Shape {
    Shape::Triangle { base, height }
}

fn pair(a: Shape, b: Shape) -> Shape {
    Shape::TwoShapes(Box::new(a), Box::new(b))
}

fn plus(a: Area, b: Area) -> Area {
    Area { pi_units: a.pi_units + b.pi_units, half_units: a.half_units + b.half_units }
}

fn as_f64(a: Area) -> f64 {
    std::f64::consts::PI * a.pi_units as f64 + a.half_units as f64 / 2.0
}

fn as_f32(a: Area) -> f32 {
    std::f32::consts::PI * a.pi_units as f32 + a.half_units as f32 / 2.0
}

#[test]
fn circle_area_is_radius_squared_times_pi() {
    for radius in [1u32, 2, 3, 10, 11, 1000, 65_535, 65_536, u32::MAX] {
        let got = area(circle(radius));
        let square = radius as u128 * radius as u128;
        assert_eq!(got, Area { pi_units: square, half_units: 0 });
    }
}

#[test]
fn circle_area_as_a_float_is_within_tolerance() {
    for radius in [1u32, 2, 3, 7, 10, 250, 4000] {
        let got = as_f32(area(circle(radius)));
        let r = radius as f32;
        let expected = std::f32::consts::PI * r * r;
        assert!((got - expected).abs() <= 1e-5 * expected.abs(), "radius {}", radius);
    }
    assert_eq!(as_f32(area(circle(1))), std::f32::consts::PI);
}

#[test]
fn rectangle_area_is_side_times_length() {
    assert_eq!(area(rectangle(2, 3)), Area { pi_units: 0, half_units: 12 });
    assert_eq!(as_f64(area(rectangle(2, 3))), 6.0);
    assert_eq!(as_f64(area(rectangle(7, 1))), 7.0);
    let big = area(rectangle(u32::MAX, u32::MAX));
    assert_eq!(big.pi_units, 0);
    assert_eq!(big.half_units, 2 * (u32::MAX as u128) * (u32::MAX as u128));
}

#[test]
fn triangle_area_is_half_base_times_height() {
    assert_eq!(area(triangle(3, 5)), Area { pi_units: 0, half_units: 15 });
    assert_eq!(as_f64(area(triangle(3, 5))), 7.5);
    assert_eq!(as_f64(area(triangle(4, 6))), 12.0);
    assert_eq!(
        area(triangle(u32::MAX, u32::MAX)).half_units,
        (u32::MAX as u128) * (u32::MAX as u128)
    );
}

#[test]
fn pair_area_is_sum_of_parts() {
    let whole = area(pair(circle(3), rectangle(2, 4)));
    assert_eq!(whole, plus(area(circle(3)), area(rectangle(2, 4))));
    assert_eq!(whole, Area { pi_units: 9, half_units: 16 });
}

#[test]
fn pair_area_is_sum_of_parts_three_levels_deep() {
    let inner = || pair(triangle(3, 5), circle(2));
    let middle = || pair(inner(), rectangle(2, 4));
    let outer = || pair(circle(1), middle());
    let top = || pair(outer(), pair(rectangle(1, 1), triangle(1, 1)));

    assert_eq!(area(inner()), plus(area(triangle(3, 5)), area(circle(2))));
    assert_eq!(area(middle()), plus(area(inner()), area(rectangle(2, 4))));
    assert_eq!(area(outer()), plus(area(circle(1)), area(middle())));
    assert_eq!(
        area(top()),
        plus(area(outer()), plus(area(rectangle(1, 1)), area(triangle(1, 1))))
    );
    assert_eq!(area(top()), Area { pi_units: 5, half_units: 15 + 16 + 2 + 1 });
}

#[test]
fn pair_area_ignores_grouping_and_order() {
    let left = pair(pair(circle(4), rectangle(2, 3)), triangle(5, 7));
    let right = pair(circle(4), pair(rectangle(2, 3), triangle(5, 7)));
    let swapped = pair(triangle(5, 7), pair(rectangle(2, 3), circle(4)));
    let expected = Area { pi_units: 16, half_units: 12 + 35 };
    assert_eq!(area(left), expected);
    assert_eq!(area(right), expected);
    assert_eq!(area(swapped), expected);
}

#[test]
fn area_covers_every_variant() {
    let all = [circle(2), rectangle(2, 2), triangle(2, 2), pair(circle(2), circle(2))];
    let expected = [
        Area { pi_units: 4, half_units: 0 },
        Area { pi_units: 0, half_units: 8 },
        Area { pi_units: 0, half_units: 4 },
        Area { pi_units: 8, half_units: 0 },
    ];
    for (shape, want) in all.into_iter().zip(expected) {
        let seen = match &shape {
            Shape::Circle { .. } => 0,
            Shape::Rectangle { .. } => 1,
            Shape::Triangle { .. } => 2,
            Shape::TwoShapes(..) => 3,
        };
        assert!(seen < 4);
        assert_eq!(area(shape), want);
    }
}

#[test]
fn area_does_not_reject_zero_dimensions() {
    let nothing = Area { pi_units: 0, half_units: 0 };
    assert_eq!(area(circle(0)), nothing);
    assert_eq!(area(rectangle(0, 5)), nothing);
    assert_eq!(area(rectangle(5, 0)), nothing);
    assert_eq!(area(triangle(0, 0)), nothing);
    assert_eq!(area(pair(circle(0), triangle(9, 0))), nothing);
}

#[test]
fn checked_area_agrees_with_area() {
    let build = || pair(pair(circle(u32::MAX), rectangle(u32::MAX, u32::MAX)), triangle(9, 9));
    assert_eq!(checked_area(&build()), Some(area(build())));
    assert_eq!(checked_area(&circle(6)), Some(Area { pi_units: 36, half_units: 0 }));
    assert_eq!(checked_area(&rectangle(6, 2)), Some(Area { pi_units: 0, half_units: 24 }));
    assert_eq!(checked_area(&triangle(6, 2)), Some(Area { pi_units: 0, half_units: 12 }));
}

#[test]
fn checked_area_of_a_long_chain() {
    let mut shape = rectangle(u32::MAX, u32::MAX);
    for _ in 0..999 {
        shape = pair(rectangle(u32::MAX, u32::MAX), shape);
    }
    let one = 2 * (u32::MAX as u128) * (u32::MAX as u128);
    assert_eq!(checked_area(&shape), Some(Area { pi_units: 0, half_units: 1000 * one }));
}

#[test]
fn area_12_measures_single_shapes() {
    assert_eq!(area_12(circle(5)), Area { pi_units: 25, half_units: 0 });
    assert_eq!(area_12(rectangle(5, 6)), Area { pi_units: 0, half_units: 60 });
    assert_eq!(area_12(triangle(5, 6)), Area { pi_units: 0, half_units: 30 });
    assert_eq!(area_12(circle(5)), area(circle(5)));
}

#[test]
fn two_big_circles_are_recognised() {
    assert!(is_two_big_circles_better(pair(circle(11), circle(12))));
    assert!(is_two_big_circles_normal(pair(circle(11), circle(12))));
}

#[test]
fn one_small_circle_is_not_two_big_circles() {
    assert!(!is_two_big_circles_better(pair(circle(5), circle(12))));
    assert!(!is_two_big_circles_normal(pair(circle(5), circle(12))));
    assert!(!is_two_big_circles_better(pair(circle(12), circle(5))));
    assert!(!is_two_big_circles_normal(pair(circle(12), circle(5))));
}

#[test]
fn big_starts_just_above_ten() {
    assert_eq!(BIG_RADIUS, 10);
    assert!(!is_two_big_circles_better(pair(circle(10), circle(10))));
    assert!(!is_two_big_circles_better(pair(circle(10), circle(11))));
    assert!(!is_two_big_circles_better(pair(circle(11), circle(10))));
    assert!(is_two_big_circles_better(pair(circle(11), circle(11))));
    assert!(!is_two_big_circles_normal(pair(circle(10), circle(11))));
    assert!(is_two_big_circles_normal(pair(circle(11), circle(11))));
}

#[test]
fn big_circles_need_two_circles() {
    for better in [false, true] {
        let ask = |shape: Shape| {
            if better {
                is_two_big_circles_better(shape)
            } else {
                is_two_big_circles_normal(shape)
            }
        };
        assert!(!ask(circle(50)));
        assert!(!ask(rectangle(50, 50)));
        assert!(!ask(pair(circle(50), rectangle(50, 50))));
        assert!(!ask(pair(triangle(50, 50), circle(50))));
        assert!(!ask(pair(pair(circle(50), circle(50)), circle(50))));
    }
}

#[test]
fn two_circles_are_recognised_whatever_their_size() {
    for better in [false, true] {
        let ask = |shape: Shape| {
            if better {
                is_two_circle_better(shape)
            } else {
                is_two_circle_normal(shape)
            }
        };
        assert!(ask(pair(circle(1), circle(2))));
        assert!(ask(pair(circle(0), circle(0))));
        assert!(ask(pair(circle(11), circle(12))));
        assert!(!ask(circle(1)));
        assert!(!ask(triangle(1, 1)));
        assert!(!ask(pair(circle(1), rectangle(1, 2))));
        assert!(!ask(pair(rectangle(1, 2), circle(1))));
        assert!(!ask(pair(triangle(1, 2), rectangle(1, 2))));
        assert!(!ask(pair(pair(circle(1), circle(1)), circle(1))));
        assert!(!ask(pair(circle(1), pair(circle(1), circle(1)))));
    }
}

#[test]
fn constructors_accept_positive_dimensions() {
    assert!(matches!(Shape::circle(3), Ok(Shape::Circle { radius: 3 })));
    assert!(matches!(Shape::rectangle(3, 4), Ok(Shape::Rectangle { side: 3, length: 4 })));
    assert!(matches!(Shape::triangle(3, 4), Ok(Shape::Triangle { base: 3, height: 4 })));
    assert!(matches!(Shape::circle(u32::MAX), Ok(Shape::Circle { radius: u32::MAX })));
}

#[test]
fn constructors_reject_a_zero_dimension() {
    assert!(matches!(Shape::circle(0), Err(InvalidGeometry)));
    assert!(matches!(Shape::rectangle(0, 4), Err(InvalidGeometry)));
    assert!(matches!(Shape::rectangle(4, 0), Err(InvalidGeometry)));
    assert!(matches!(Shape::rectangle(0, 0), Err(InvalidGeometry)));
    assert!(matches!(Shape::triangle(0, 4), Err(InvalidGeometry)));
    assert!(matches!(Shape::triangle(4, 0), Err(InvalidGeometry)));
}

#[test]
fn pair_constructor_keeps_both_parts_in_order() {
    let built = Shape::pair(circle(1), rectangle(2, 3));
    match built {
        Shape::TwoShapes(a, b) => {
            assert!(matches!(*a, Shape::Circle { radius: 1 }));
            assert!(matches!(*b, Shape::Rectangle { side: 2, length: 3 }));
        }
        other => panic!("not a pair: {:?}", other),
    }
}

#[test]
fn validity_looks_at_every_dimension() {
    assert!(circle(1).check_valid());
    assert!(!circle(0).check_valid());
    assert!(rectangle(1, 1).check_valid());
    assert!(!rectangle(1, 0).check_valid());
    assert!(!rectangle(0, 1).check_valid());
    assert!(triangle(1, 1).check_valid());
    assert!(!triangle(1, 0).check_valid());
    assert!(!triangle(0, 1).check_valid());
    assert!(pair(circle(1), pair(rectangle(1, 1), triangle(1, 1))).check_valid());
    assert!(!pair(circle(1), pair(rectangle(1, 1), triangle(1, 0))).check_valid());
    assert!(!pair(circle(0), circle(1)).check_valid());
}

#[test]
fn valid_shapes_have_some_area() {
    let nothing = Area { pi_units: 0, half_units: 0 };
    for shape in [circle(1), rectangle(1, 1), triangle(1, 1), pair(circle(1), triangle(1, 1))] {
        assert!(shape.check_valid());
        assert_ne!(area(shape), nothing);
    }
}

#[test]
fn record_with_only_a_radius_is_a_circle() {
    let record = BadShape { radius: Some(3), side: None, base: None };
    assert_eq!(area_1(record), Area { pi_units: 9, half_units: 0 });
    assert_eq!(area_1(record), area(circle(3)));
}

#[test]
fn record_with_side_and_base_is_half_their_product() {
    let record = BadShape { radius: None, side: Some(2), base: Some(3) };
    assert_eq!(area_1(record), Area { pi_units: 0, half_units: 6 });
    assert_eq!(area_1(record), area(triangle(3, 2)));
    assert_eq!(as_f64(area_1(record)), 3.0);
}
