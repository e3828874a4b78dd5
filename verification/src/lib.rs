//! Small verified building blocks that lean on the type system: values that
//! cannot be malformed, and failures that are returned rather than raised.
//!
//! - [`shape`]: a closed set of geometric shapes, predicates over their
//!   structure, and constructors that refuse a dimension of zero.
//! - [`area`]: the exact area of a shape, as a multiple of π plus a number
//!   of half square units.
//! - [`bad_shape`]: the same shapes as a record of optional fields, for
//!   contrast.
//! - [`account`]: withdrawing from one account and crediting another.
//! - [`factorial`]: factorials by three differently shaped loops.
//! - [`human`]: small sum and product types and predicates that match on
//!   them.
//! - [`text`]: appending to owned and to borrowed strings.
//! - [`expressions`]: values built from boxes, matches, blocks and closures.

pub mod account;
pub mod area;
pub mod bad_shape;
pub mod expressions;
pub mod factorial;
pub mod human;
pub mod shape;
pub mod text;
