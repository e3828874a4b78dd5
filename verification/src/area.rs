//! Exact areas of shapes.
//!
//! An area is kept as a multiple of π plus a number of half square units:
//! circles contribute to the first, rectangles and triangles to the second.
//! Nothing is rounded, so areas add up exactly however shapes are nested.

use crate::shape::Shape;
use vstd::prelude::*;

verus! {

/// The mathematical value of an area: `pi`·π + `halves`/2 square units.
pub struct ExactArea {
    pub pi: nat,
    pub halves: nat,
}

impl ExactArea {
    /// The sum of two areas.
    pub open spec fn plus(self, other: ExactArea) -> ExactArea {
        ExactArea { pi: self.pi + other.pi, halves: self.halves + other.halves }
    }

    /// Whether both parts fit in the machine representation [`Area`].
    pub open spec fn fits(self) -> bool {
        self.pi <= u128::MAX && self.halves <= u128::MAX
    }
}

/// An area as the machine holds it: `pi_units`·π + `half_units`/2 square
/// units.
#[derive(Debug, Clone, Copy, PartialEq, Eq, Structural)]
pub struct Area {
    pub pi_units: u128,
    pub half_units: u128,
}

impl View for Area {
    type V = ExactArea;

    open spec fn view(&self) -> ExactArea {
        ExactArea { pi: self.pi_units as nat, halves: self.half_units as nat }
    }
}

impl Shape {
    /// The area of a shape: π·radius² for a circle, side·length for a
    /// rectangle, base·height/2 for a triangle, and the sum of both parts for
    /// a pair.
    pub open spec fn exact_area(self) -> ExactArea
        decreases self,
    {
        match self {
            Shape::Circle { radius } => ExactArea { pi: (radius * radius) as nat, halves: 0 },
            Shape::Rectangle { side, length } => ExactArea {
                pi: 0,
                halves: (2 * side * length) as nat,
            },
            Shape::Triangle { base, height } => ExactArea { pi: 0, halves: (base * height) as nat },
            Shape::TwoShapes(a, b) => a.exact_area().plus(b.exact_area()),
        }
    }
}

/// The product of two dimensions is at most (2^32 - 1)², well within 128
/// bits.
pub proof fn lemma_product_bound(x: u32, y: u32)
    ensures
        x * y <= 0xffff_fffe_0000_0001,
{
    assert(x * y <= 0xffff_ffff * 0xffff_ffff) by (nonlinear_arith)
        requires
            0 <= x <= 0xffff_ffff,
            0 <= y <= 0xffff_ffff,
    ;
}

/// Computes the area of `shape`, case by case over its variants.
pub fn area(shape: Shape) -> (result: Area)
    requires
        shape.exact_area().fits(),
    ensures
        result@ == shape.exact_area(),
    decreases shape,
{
    match shape {
        Shape::Circle { radius } => {
            proof {
                lemma_product_bound(radius, radius);
            }
            Area { pi_units: radius as u128 * radius as u128, half_units: 0 }
        },
        Shape::Rectangle { side, length } => {
            proof {
                lemma_product_bound(side, length);
                assert(2 * side * length == 2 * (side * length)) by (nonlinear_arith);
            }
            Area { pi_units: 0, half_units: 2 * (side as u128 * length as u128) }
        },
        Shape::Triangle { base, height } => {
            proof {
                lemma_product_bound(base, height);
            }
            Area { pi_units: 0, half_units: base as u128 * height as u128 }
        },
        Shape::TwoShapes(a, b) => {
            let first = area(*a);
            let second = area(*b);
            Area {
                pi_units: first.pi_units + second.pi_units,
                half_units: first.half_units + second.half_units,
            }
        },
    }
}

/// Computes the area of any shape: `Some` of the exact area when both of its
/// parts fit in an [`Area`], `None` when one of them does not.
pub fn checked_area(shape: &Shape) -> (result: Option<Area>)
    ensures
        match result {
            Some(total) => total@ == shape.exact_area(),
            None => !shape.exact_area().fits(),
        },
    decreases shape,
{
    match shape {
        Shape::Circle { radius } => {
            proof {
                lemma_product_bound(*radius, *radius);
            }
            Some(Area { pi_units: *radius as u128 * *radius as u128, half_units: 0 })
        },
        Shape::Rectangle { side, length } => {
            proof {
                lemma_product_bound(*side, *length);
                assert(2 * *side * *length == 2 * (*side * *length)) by (nonlinear_arith);
            }
            Some(Area { pi_units: 0, half_units: 2 * (*side as u128 * *length as u128) })
        },
        Shape::Triangle { base, height } => {
            proof {
                lemma_product_bound(*base, *height);
            }
            Some(Area { pi_units: 0, half_units: *base as u128 * *height as u128 })
        },
        Shape::TwoShapes(a, b) => {
            let first = match checked_area(a) {
                Some(first) => first,
                None => {
                    return None;
                },
            };
            let second = match checked_area(b) {
                Some(second) => second,
                None => {
                    return None;
                },
            };
            let pi_units = match first.pi_units.checked_add(second.pi_units) {
                Some(pi_units) => pi_units,
                None => {
                    return None;
                },
            };
            let half_units = match first.half_units.checked_add(second.half_units) {
                Some(half_units) => half_units,
                None => {
                    return None;
                },
            };
            Some(Area { pi_units, half_units })
        },
    }
}

/// Computes the area of a shape that is not a pair.
pub fn area_12(shape: Shape) -> (result: Area)
    requires
        !(shape is TwoShapes),
    ensures
        result@ == shape.exact_area(),
{
    match shape {
        Shape::Circle { radius } => {
            proof {
                lemma_product_bound(radius, radius);
            }
            Area { pi_units: radius as u128 * radius as u128, half_units: 0 }
        },
        Shape::Rectangle { side, length } => {
            proof {
                lemma_product_bound(side, length);
                assert(2 * side * length == 2 * (side * length)) by (nonlinear_arith);
            }
            Area { pi_units: 0, half_units: 2 * (side as u128 * length as u128) }
        },
        Shape::Triangle { base, height } => {
            proof {
                lemma_product_bound(base, height);
            }
            Area { pi_units: 0, half_units: base as u128 * height as u128 }
        },
        _ => unreached(),
    }
}

/// A circle of radius `r` has area exactly `r`²·π, whatever `r` is.
pub proof fn lemma_circle_area(radius: u32)
    ensures
        (Shape::Circle { radius }).exact_area() == (ExactArea {
            pi: (radius * radius) as nat,
            halves: 0,
        }),
        (Shape::Circle { radius }).exact_area().fits(),
{
    lemma_product_bound(radius, radius);
}

/// A rectangle has area exactly side·length, that is 2·side·length half
/// units, whatever its sides are.
pub proof fn lemma_rectangle_area(side: u32, length: u32)
    ensures
        (Shape::Rectangle { side, length }).exact_area() == (ExactArea {
            pi: 0,
            halves: (2 * (side * length)) as nat,
        }),
        (Shape::Rectangle { side, length }).exact_area().fits(),
{
    lemma_product_bound(side, length);
    assert(2 * side * length == 2 * (side * length)) by (nonlinear_arith);
}

/// A triangle has area exactly base·height/2, that is base·height half
/// units, whatever its base and height are.
pub proof fn lemma_triangle_area(base: u32, height: u32)
    ensures
        (Shape::Triangle { base, height }).exact_area() == (ExactArea {
            pi: 0,
            halves: (base * height) as nat,
        }),
        (Shape::Triangle { base, height }).exact_area().fits(),
{
    lemma_product_bound(base, height);
}

/// The area of a pair is the sum of the areas of its two parts, at every
/// depth of nesting.
pub proof fn lemma_pair_area(a: Shape, b: Shape)
    ensures
        Shape::TwoShapes(Box::new(a), Box::new(b)).exact_area() == a.exact_area().plus(
            b.exact_area(),
        ),
{
}

/// How three shapes are grouped into pairs does not change the total area.
pub proof fn lemma_pair_area_associative(a: Shape, b: Shape, c: Shape)
    ensures
        Shape::TwoShapes(
            Box::new(Shape::TwoShapes(Box::new(a), Box::new(b))),
            Box::new(c),
        ).exact_area() == Shape::TwoShapes(
            Box::new(a),
            Box::new(Shape::TwoShapes(Box::new(b), Box::new(c))),
        ).exact_area(),
{
    reveal_with_fuel(Shape::exact_area, 2);
}

/// Swapping the two parts of a pair does not change its area.
pub proof fn lemma_pair_area_commutative(a: Shape, b: Shape)
    ensures
        Shape::TwoShapes(Box::new(a), Box::new(b)).exact_area() == Shape::TwoShapes(
            Box::new(b),
            Box::new(a),
        ).exact_area(),
{
}

/// Neither part of an area is more than the number of parts times what one
/// part can contribute.
pub proof fn lemma_area_bound(shape: Shape)
    ensures
        shape.exact_area().pi <= shape.parts() * 0xffff_fffe_0000_0001,
        shape.exact_area().halves <= shape.parts() * 0x1_ffff_fffc_0000_0002,
    decreases shape,
{
    match shape {
        Shape::Circle { radius } => {
            lemma_product_bound(radius, radius);
        },
        Shape::Rectangle { side, length } => {
            lemma_product_bound(side, length);
            assert(2 * side * length == 2 * (side * length)) by (nonlinear_arith);
        },
        Shape::Triangle { base, height } => {
            lemma_product_bound(base, height);
        },
        Shape::TwoShapes(a, b) => {
            lemma_area_bound(*a);
            lemma_area_bound(*b);
            assert((a.parts() + b.parts()) * 0xffff_fffe_0000_0001 == a.parts()
                * 0xffff_fffe_0000_0001 + b.parts() * 0xffff_fffe_0000_0001) by (nonlinear_arith);
            assert((a.parts() + b.parts()) * 0x1_ffff_fffc_0000_0002 == a.parts()
                * 0x1_ffff_fffc_0000_0002 + b.parts() * 0x1_ffff_fffc_0000_0002)
                by (nonlinear_arith);
        },
    }
}

/// The area of every shape of up to 2^62 parts fits.
pub proof fn lemma_area_fits(shape: Shape)
    requires
        shape.parts() <= 0x4000_0000_0000_0000,
    ensures
        shape.exact_area().fits(),
{
    lemma_area_bound(shape);
}

/// When the area of a pair fits, so does the area of each part.
pub proof fn lemma_parts_fit(a: Shape, b: Shape)
    requires
        Shape::TwoShapes(Box::new(a), Box::new(b)).exact_area().fits(),
    ensures
        a.exact_area().fits(),
        b.exact_area().fits(),
{
}

/// A valid shape covers some area: it is never exactly zero.
pub proof fn lemma_valid_area_positive(shape: Shape)
    requires
        shape.is_valid(),
    ensures
        shape.exact_area().pi > 0 || shape.exact_area().halves > 0,
    decreases shape,
{
    match shape {
        Shape::Circle { radius } => {
            assert(radius * radius > 0) by (nonlinear_arith)
                requires
                    radius > 0,
            ;
        },
        Shape::Rectangle { side, length } => {
            assert(2 * side * length > 0) by (nonlinear_arith)
                requires
                    side > 0,
                    length > 0,
            ;
        },
        Shape::Triangle { base, height } => {
            assert(base * height > 0) by (nonlinear_arith)
                requires
                    base > 0,
                    height > 0,
            ;
        },
        Shape::TwoShapes(a, b) => {
            lemma_valid_area_positive(*a);
        },
    }
}

} // verus!
