//! A shape kept as a record of optional dimensions.
//!
//! Such a record admits eight combinations of present and absent fields, of
//! which two describe a shape. It is here to be measured against
//! [`Shape`](crate::shape::Shape), where every value is a shape.

use crate::area::{lemma_product_bound, Area, ExactArea};
use crate::shape::Shape;
use vstd::prelude::*;

verus! {

/// A record of dimensions, each of which may be missing.
#[derive(Debug, Clone, Copy, PartialEq, Eq)]
pub struct BadShape {
    pub radius: Option<u32>,
    pub side: Option<u32>,
    pub base: Option<u32>,
}

impl BadShape {
    /// Whether the record holds a radius and nothing else.
    pub open spec fn is_circle(self) -> bool {
        self.radius is Some && self.side is None && self.base is None
    }

    /// Whether the record holds a side and a base and no radius.
    pub open spec fn is_triangle(self) -> bool {
        self.radius is None && self.side is Some && self.base is Some
    }

    /// Whether the record describes a shape at all.
    pub open spec fn is_shape(self) -> bool {
        self.is_circle() || self.is_triangle()
    }

    /// The shape that the record describes: a circle of its radius, or a
    /// triangle with its base and with its side for a height.
    pub open spec fn as_shape(self) -> Shape
        recommends
            self.is_shape(),
    {
        if self.is_circle() {
            Shape::Circle { radius: self.radius->0 }
        } else {
            Shape::Triangle { base: self.base->0, height: self.side->0 }
        }
    }

    /// The area of the shape that the record describes: π·radius², or
    /// base·side/2.
    pub open spec fn exact_area(self) -> ExactArea
        recommends
            self.is_shape(),
    {
        if self.is_circle() {
            ExactArea { pi: (self.radius->0 * self.radius->0) as nat, halves: 0 }
        } else {
            ExactArea { pi: 0, halves: (self.base->0 * self.side->0) as nat }
        }
    }
}

/// Computes the area of a record that describes a shape.
pub fn area_1(shape: BadShape) -> (result: Area)
    requires
        shape.is_shape(),
    ensures
        result@ == shape.exact_area(),
{
    match shape {
        BadShape { radius: Some(radius), side: None, base: None } => {
            proof {
                lemma_product_bound(radius, radius);
            }
            Area { pi_units: radius as u128 * radius as u128, half_units: 0 }
        },
        BadShape { radius: None, side: Some(side), base: Some(base) } => {
            proof {
                lemma_product_bound(base, side);
            }
            Area { pi_units: 0, half_units: base as u128 * side as u128 }
        },
        _ => unreached(),
    }
}

/// A record that describes a shape has the area of that shape.
pub proof fn lemma_record_area_is_shape_area(shape: BadShape)
    requires
        shape.is_shape(),
    ensures
        shape.exact_area() == shape.as_shape().exact_area(),
{
}

} // verus!
