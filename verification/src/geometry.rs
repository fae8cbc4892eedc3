//! The geometric value types and their kind tags.
//!
//! Coordinates and radii are 64-bit IEEE-754 values on the wire, but nothing
//! in this crate computes with them: the codec is a pure byte-order
//! transform. Each 64-bit value is therefore held as its raw bit pattern,
//! which keeps every operation exact — NaN, infinities and negative zero
//! pass through unchanged.

use vstd::prelude::*;

verus! {

/// A 2D point: the raw bit patterns of its two 64-bit coordinates.
///
/// A dumb wrapper, meant only to label the pair's meaning. The crate puts
/// no constraint on the values; finiteness is the caller's concern.
#[derive(Clone, Copy, Debug, PartialEq, Eq, Structural)]
pub struct Point {
    /// Bit pattern of the x coordinate.
    pub x_bits: u64,
    /// Bit pattern of the y coordinate.
    pub y_bits: u64,
}

/// An axis-aligned rectangle, held in the canonical caller-facing order
/// `(lower_left, upper_right)`.
///
/// The wire format stores the corners the other way round; the codec — not
/// the caller — performs that reordering. Nothing checks that `lower_left`
/// is actually below or left of `upper_right`: the codec reorders bytes,
/// not coordinates, and trusts the caller's labeling.
#[derive(Clone, Copy, Debug, PartialEq, Eq, Structural)]
pub struct Box {
    /// The corner the caller labels lower-left.
    pub lower_left: Point,
    /// The corner the caller labels upper-right.
    pub upper_right: Point,
}

/// A circle: a center point and the raw bit pattern of its 64-bit radius.
///
/// The radius is not constrained; a negative radius passes through as-is.
#[derive(Clone, Copy, Debug, PartialEq, Eq, Structural)]
pub struct Circle {
    /// The center of the circle.
    pub center: Point,
    /// Bit pattern of the radius.
    pub radius_bits: u64,
}

/// The closed classification of a geometric value, used by the rule tables.
#[derive(Clone, Copy, Debug, PartialEq, Eq, Structural)]
pub enum GeometricKind {
    /// A 2D point.
    Point,
    /// An axis-aligned rectangle.
    Box,
    /// A circle.
    Circle,
}

} // verus!
