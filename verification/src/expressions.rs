//! A walk through values that are built from expressions: boxes, matches,
//! conditionals, blocks and closures.

use crate::bad_shape::BadShape;
use crate::shape::Shape;
use vstd::prelude::*;

verus! {

/// A singly linked list that owns its tail.
#[derive(Debug)]
pub enum List<T> {
    Nil,
    Cons { head: T, tail: Box<List<T>> },
}

/// Builds a handful of values, each from a different form of expression.
/// Nothing is returned and nothing outside is touched.
#[allow(unused_variables)]
pub fn foo() {
    let mylist: List<u32> = List::Nil;
    let x: Box<u32> = Box::new(3);
    let y: u32 = *x + 2;

    let shape = BadShape { radius: None, side: Some(2), base: Some(3) };
    let shape2 = BadShape { radius: Some(9), side: Some(2), base: Some(3) };

    let shape0 = Shape::Circle { radius: 32 };

    let x: u64 = match shape.radius {
        Some(radius) => radius as u64 * 2,
        None => 0,
    };
    let hello = if true {
        "hello"
    } else {
        "world"
    };
    let x: u32 = {
        let a: u32 = 2;
        let b: u32 = 3;
        a + b
    };

    let x_: u64 = shape.radius.map(|radius: u32| radius as u64 * 2).unwrap_or_else(|| 0);
}

} // verus!
