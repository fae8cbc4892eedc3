//! The failures this crate can report.
//!
//! All three are local, synchronous and deterministic: each is detected
//! before anything is written or sent, so a failed call has no partial
//! effect.

use crate::geometry::GeometricKind;
use vstd::prelude::*;

verus! {

/// Why a codec or the predicate builder refused an input.
#[derive(Clone, Copy, Debug, PartialEq, Eq, Structural)]
pub enum Error {
    /// A codec was handed fewer bytes than the fixed size its type requires.
    MalformedInput,
    /// A same-as comparison was requested between the two kinds named here,
    /// which either differ or fall outside the equality rule set.
    EqualityNotSupported(GeometricKind, GeometricKind),
    /// An is-contained-by comparison was requested for the (subject, bound)
    /// pair of kinds named here, which the containment table excludes.
    ContainmentNotSupported(GeometricKind, GeometricKind),
}

} // verus!
