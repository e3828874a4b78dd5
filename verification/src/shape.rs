//! A closed set of geometric shapes.
//!
//! A shape is exactly one of four variants and carries the dimensions of that
//! variant, no more and no fewer. Dimensions are whole numbers of a length
//! unit. The variants themselves accept a dimension of zero; the constructors
//! of [`Shape`] are for callers who want such a shape refused.

use vstd::prelude::*;

verus! {

/// A shape: exactly one of four variants, each with the dimensions it needs
/// and no others.
#[derive(Debug)]
pub enum Shape {
    Circle { radius: u32 },
    Rectangle { side: u32, length: u32 },
    Triangle { base: u32, height: u32 },
    /// Two shapes side by side; the pair owns both.
    TwoShapes(Box<Shape>, Box<Shape>),
}

/// The error of a constructor that was given a dimension of zero.
#[derive(Debug, Clone, Copy, PartialEq, Eq, Structural)]
pub struct InvalidGeometry;

/// A circle is big when its radius is greater than this.
pub const BIG_RADIUS: u32 = 10;

impl Shape {
    /// Whether the shape is a pair whose two parts are both circles.
    pub open spec fn is_two_circles(self) -> bool {
        self matches Shape::TwoShapes(a, b) && *a is Circle && *b is Circle
    }

    /// Whether the shape is a pair of circles that are both big.
    pub open spec fn is_two_big_circles(self) -> bool {
        &&& self matches Shape::TwoShapes(a, b)
        &&& *a matches Shape::Circle { radius: radius_a }
        &&& *b matches Shape::Circle { radius: radius_b }
        &&& radius_a > BIG_RADIUS
        &&& radius_b > BIG_RADIUS
    }

    /// Whether every dimension in the shape is positive.
    pub open spec fn is_valid(self) -> bool
        decreases self,
    {
        match self {
            Shape::Circle { radius } => radius > 0,
            Shape::Rectangle { side, length } => side > 0 && length > 0,
            Shape::Triangle { base, height } => base > 0 && height > 0,
            Shape::TwoShapes(a, b) => a.is_valid() && b.is_valid(),
        }
    }

    /// How many shapes that are not pairs the shape is made of.
    pub open spec fn parts(self) -> nat
        decreases self,
    {
        match self {
            Shape::TwoShapes(a, b) => a.parts() + b.parts(),
            _ => 1,
        }
    }
}

/// Whether `shape` is a pair of two circles, found by matching one level at
/// a time.
pub fn is_two_circle_normal(shape: Shape) -> (result: bool)
    ensures
        result == shape.is_two_circles(),
{
    match shape {
        Shape::TwoShapes(a, b) => {
            match *a {
                Shape::Circle { .. } => match *b {
                    Shape::Circle { .. } => true,
                    _ => false,
                },
                _ => false,
            }
        },
        _ => false,
    }
}

/// Whether `shape` is a pair of two circles, found by matching both parts at
/// once.
pub fn is_two_circle_better(shape: Shape) -> (result: bool)
    ensures
        result == shape.is_two_circles(),
{
    match shape {
        Shape::TwoShapes(a, b) => match (*a, *b) {
            (Shape::Circle { .. }, Shape::Circle { .. }) => true,
            _ => false,
        },
        _ => false,
    }
}

/// Whether `shape` is a pair of two big circles, with the test on the radii
/// inside the matched arm.
pub fn is_two_big_circles_normal(shape: Shape) -> (result: bool)
    ensures
        result == shape.is_two_big_circles(),
{
    match shape {
        Shape::TwoShapes(a, b) => match (*a, *b) {
            (Shape::Circle { radius: radius_a }, Shape::Circle { radius: radius_b }) => {
                if radius_a > BIG_RADIUS && radius_b > BIG_RADIUS {
                    true
                } else {
                    false
                }
            },
            _ => false,
        },
        _ => false,
    }
}

/// Whether `shape` is a pair of two big circles, with the test on the radii
/// as a guard of the pattern.
pub fn is_two_big_circles_better(shape: Shape) -> (result: bool)
    ensures
        result == shape.is_two_big_circles(),
{
    match shape {
        Shape::TwoShapes(a, b) => match (*a, *b) {
            (Shape::Circle { radius: radius_a }, Shape::Circle { radius: radius_b })
                if radius_a > BIG_RADIUS && radius_b > BIG_RADIUS
            => { true },
            _ => false,
        },
        _ => false,
    }
}

/// A pair of big circles is in particular a pair of circles.
pub proof fn lemma_big_circles_are_circles(shape: Shape)
    requires
        shape.is_two_big_circles(),
    ensures
        shape.is_two_circles(),
{
}

impl Shape {
    /// A circle of the given radius, which must be positive.
    pub fn circle(radius: u32) -> (result: Result<Shape, InvalidGeometry>)
        ensures
            radius > 0 ==> result == Ok::<Shape, InvalidGeometry>(Shape::Circle { radius }),
            radius == 0 ==> result == Err::<Shape, InvalidGeometry>(InvalidGeometry),
            result matches Ok(shape) ==> shape.is_valid(),
    {
        if radius == 0 {
            Err(InvalidGeometry)
        } else {
            Ok(Shape::Circle { radius })
        }
    }

    /// A rectangle of the given sides, which must both be positive.
    pub fn rectangle(side: u32, length: u32) -> (result: Result<Shape, InvalidGeometry>)
        ensures
            side > 0 && length > 0 ==> result == Ok::<Shape, InvalidGeometry>(
                Shape::Rectangle { side, length },
            ),
            side == 0 || length == 0 ==> result == Err::<Shape, InvalidGeometry>(InvalidGeometry),
            result matches Ok(shape) ==> shape.is_valid(),
    {
        if side == 0 || length == 0 {
            Err(InvalidGeometry)
        } else {
            Ok(Shape::Rectangle { side, length })
        }
    }

    /// A triangle of the given base and height, which must both be positive.
    pub fn triangle(base: u32, height: u32) -> (result: Result<Shape, InvalidGeometry>)
        ensures
            base > 0 && height > 0 ==> result == Ok::<Shape, InvalidGeometry>(
                Shape::Triangle { base, height },
            ),
            base == 0 || height == 0 ==> result == Err::<Shape, InvalidGeometry>(InvalidGeometry),
            result matches Ok(shape) ==> shape.is_valid(),
    {
        if base == 0 || height == 0 {
            Err(InvalidGeometry)
        } else {
            Ok(Shape::Triangle { base, height })
        }
    }

    /// The pair of two shapes, which it takes over.
    pub fn pair(first: Shape, second: Shape) -> (result: Shape)
        ensures
            result == Shape::TwoShapes(Box::new(first), Box::new(second)),
            result.is_valid() == (first.is_valid() && second.is_valid()),
    {
        Shape::TwoShapes(Box::new(first), Box::new(second))
    }

    /// Whether every dimension in the shape is positive.
    pub fn check_valid(&self) -> (result: bool)
        ensures
            result == self.is_valid(),
        decreases self,
    {
        match self {
            Shape::Circle { radius } => *radius > 0,
            Shape::Rectangle { side, length } => *side > 0 && *length > 0,
            Shape::Triangle { base, height } => *base > 0 && *height > 0,
            Shape::TwoShapes(a, b) => a.check_valid() && b.check_valid(),
        }
    }
}

/// A pair is valid exactly when both of its parts are.
pub proof fn lemma_pair_valid(a: Shape, b: Shape)
    ensures
        Shape::TwoShapes(Box::new(a), Box::new(b)).is_valid() <==> a.is_valid() && b.is_valid(),
{
}

} // verus!
