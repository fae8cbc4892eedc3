//! The closed rule tables for the server's two geometric comparisons.
//!
//! Both tables are fixed facts about the server's native operators: which
//! ordered pairs of kinds the is-contained-by comparison accepts, and which
//! kinds the same-as (areal equality) comparison is defined for. They are
//! plain lookups over [`GeometricKind`], inspectable on their own, and the
//! predicate builder consults them before constructing anything.
//!
//! The containment table, subject kind by bound kind:
//!
//! | subject | bound Circle | bound Box |
//! |---------|--------------|-----------|
//! | Point   | yes          | yes       |
//! | Circle  | yes          | yes       |
//! | Box     | no           | yes       |
//!
//! No kind can be tested against a Point bound. The marker traits
//! [`CanBeContainedByCircle`] and [`CanBeContainedByBox`] state the same
//! table at the type level, so that a caller generic over operand types can
//! rule illegal pairings out at compile time.

use crate::geometry::Box;
use crate::geometry::Circle;
use crate::geometry::GeometricKind;
use crate::geometry::Point;
use vstd::prelude::*;

verus! {

/// Whether a value of kind `subject` may be tested is-contained-by a bound
/// of kind `bound`: every pairing with a Box bound, and every pairing with a
/// Circle bound except a Box subject. A Point never serves as a bound.
pub open spec fn spec_can_be_contained_by(subject: GeometricKind, bound: GeometricKind) -> bool {
    match bound {
        GeometricKind::Point => false,
        GeometricKind::Box => true,
        GeometricKind::Circle => subject == GeometricKind::Point || subject
            == GeometricKind::Circle,
    }
}

/// Whether kind `kind` supports the same-as (areal equality) comparison:
/// every kind this crate models does.
pub open spec fn spec_supports_same_as(kind: GeometricKind) -> bool {
    match kind {
        GeometricKind::Point => true,
        GeometricKind::Box => true,
        GeometricKind::Circle => true,
    }
}

/// Looks `(subject, bound)` up in the containment table.
pub fn can_be_contained_by(subject: GeometricKind, bound: GeometricKind) -> (r: bool)
    ensures
        r == spec_can_be_contained_by(subject, bound),
{
    match bound {
        GeometricKind::Point => false,
        GeometricKind::Box => true,
        GeometricKind::Circle => match subject {
            GeometricKind::Point => true,
            GeometricKind::Circle => true,
            GeometricKind::Box => false,
        },
    }
}

/// Looks `kind` up in the equality rule set.
pub fn supports_same_as(kind: GeometricKind) -> (r: bool)
    ensures
        r == spec_supports_same_as(kind),
{
    match kind {
        GeometricKind::Point => true,
        GeometricKind::Box => true,
        GeometricKind::Circle => true,
    }
}

/// Type-level face of the containment table's Circle-bound column: a Circle
/// can bound a Point or a Circle, but not a Box.
pub trait CanBeContainedByCircle {

}

impl CanBeContainedByCircle for Point {

}

impl CanBeContainedByCircle for Circle {

}

/// Type-level face of the containment table's Box-bound column: a Box can
/// bound a Point, a Circle, and a Box.
pub trait CanBeContainedByBox {

}

impl CanBeContainedByBox for Point {

}

impl CanBeContainedByBox for Circle {

}

impl CanBeContainedByBox for Box {

}

} // verus!
