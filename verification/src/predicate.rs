//! The predicate builder.
//!
//! Given two typed operands and a requested relation, the builder validates
//! the pairing against the rule tables and, only on success, serializes both
//! operands and emits an opaque [`Predicate`] node carrying them together
//! with the relation. The surrounding query layer renders the node as the
//! two serialized operands joined by the server's infix operator token:
//! `~=` for same-as, `<@` for is-contained-by. No other operator is ever
//! emitted.
//!
//! Construction is pure and deterministic. A failure is always a local
//! validation failure, detected before any bytes could be sent anywhere.

use crate::codec::encode_box;
use crate::codec::encode_circle;
use crate::codec::encode_point;
use crate::codec::spec_box_to_bytes;
use crate::codec::spec_circle_to_bytes;
use crate::codec::spec_point_to_bytes;
use crate::error::Error;
use crate::geometry::Box;
use crate::geometry::Circle;
use crate::geometry::GeometricKind;
use crate::geometry::Point;
use crate::rules::can_be_contained_by;
use crate::rules::spec_can_be_contained_by;
use crate::rules::spec_supports_same_as;
use crate::rules::supports_same_as;
use vstd::prelude::*;

verus! {

/// A geometric operand: one of the three value types, tagged by its kind.
#[derive(Clone, Copy, Debug, PartialEq, Eq, Structural)]
pub enum Shape {
    /// A point operand.
    Point(Point),
    /// A box operand.
    Box(Box),
    /// A circle operand.
    Circle(Circle),
}

/// The kind tag of a shape.
pub open spec fn spec_kind_of(s: Shape) -> GeometricKind {
    match s {
        Shape::Point(_) => GeometricKind::Point,
        Shape::Box(_) => GeometricKind::Box,
        Shape::Circle(_) => GeometricKind::Circle,
    }
}

/// The wire bytes of a shape, by its own codec.
pub open spec fn spec_shape_to_bytes(s: Shape) -> Seq<u8> {
    match s {
        Shape::Point(p) => spec_point_to_bytes(p),
        Shape::Box(b) => spec_box_to_bytes(b),
        Shape::Circle(c) => spec_circle_to_bytes(c),
    }
}

impl Shape {
    /// The kind of this shape.
    pub fn kind(&self) -> (k: GeometricKind)
        ensures
            k == spec_kind_of(*self),
    {
        match self {
            Shape::Point(_) => GeometricKind::Point,
            Shape::Box(_) => GeometricKind::Box,
            Shape::Circle(_) => GeometricKind::Circle,
        }
    }

    /// Encodes this shape with the codec of its kind.
    pub fn encode(&self) -> (out: Vec<u8>)
        ensures
            out@ == spec_shape_to_bytes(*self),
    {
        match self {
            Shape::Point(p) => encode_point(p),
            Shape::Box(b) => encode_box(b),
            Shape::Circle(c) => encode_circle(c),
        }
    }
}

/// The two relations the server understands natively over geometric values.
#[derive(Clone, Copy, Debug, PartialEq, Eq, Structural)]
pub enum Relation {
    /// Areal equality, rendered as the server's `~=` operator.
    SameAs,
    /// Containment of the left operand within the right, rendered as the
    /// server's `<@` operator.
    IsContainedBy,
}

/// Whether the rule tables allow `relation` between operands of kinds
/// `left` and `right`: same-as demands identical kinds inside the equality
/// rule set, is-contained-by consults the containment table.
pub open spec fn spec_relation_allowed(
    relation: Relation,
    left: GeometricKind,
    right: GeometricKind,
) -> bool {
    match relation {
        Relation::SameAs => left == right && spec_supports_same_as(left),
        Relation::IsContainedBy => spec_can_be_contained_by(left, right),
    }
}

/// The error a refused pairing reports: the kinds that were requested, under
/// the variant of the relation that refused them.
pub open spec fn spec_refusal(
    relation: Relation,
    left: GeometricKind,
    right: GeometricKind,
) -> Error {
    match relation {
        Relation::SameAs => Error::EqualityNotSupported(left, right),
        Relation::IsContainedBy => Error::ContainmentNotSupported(left, right),
    }
}

/// A serialized operand: its kind tag and its wire bytes.
#[derive(Clone, Debug, PartialEq, Eq)]
pub struct Operand {
    /// The kind of the value the payload encodes.
    pub kind: GeometricKind,
    /// The value's wire bytes, produced by the codec of its kind.
    pub payload: Vec<u8>,
}

/// An opaque binary-predicate node: two serialized operands and the
/// relation between them, already validated against the rule tables.
#[derive(Clone, Debug, PartialEq, Eq)]
pub struct Predicate {
    /// The validated relation.
    pub relation: Relation,
    /// The serialized left operand.
    pub left: Operand,
    /// The serialized right operand.
    pub right: Operand,
}

impl Predicate {
    /// The infix operator token the server recognizes for this predicate's
    /// relation: `~=` for same-as, `<@` for is-contained-by.
    pub fn operator_token(&self) -> (t: &'static str)
        ensures
            self.relation == Relation::SameAs ==> t@ == "~="@,
            self.relation == Relation::IsContainedBy ==> t@ == "<@"@,
    {
        match self.relation {
            Relation::SameAs => "~=",
            Relation::IsContainedBy => "<@",
        }
    }
}

/// Containment matrix law: over the nine ordered pairs of kinds, an
/// is-contained-by predicate is allowed exactly for the five pairs the
/// containment table lists — both corners of the matrix are pinned, so the
/// single excluded (subject, bound) pairing with a Box inside a Circle, and
/// every pairing against a Point bound, are refused and nothing else is.
pub proof fn lemma_containment_matrix(subject: GeometricKind, bound: GeometricKind)
    ensures
        spec_relation_allowed(Relation::IsContainedBy, subject, bound) <==> {
            ||| subject == GeometricKind::Point && bound == GeometricKind::Circle
            ||| subject == GeometricKind::Point && bound == GeometricKind::Box
            ||| subject == GeometricKind::Circle && bound == GeometricKind::Circle
            ||| subject == GeometricKind::Circle && bound == GeometricKind::Box
            ||| subject == GeometricKind::Box && bound == GeometricKind::Box
        },
{
}

/// Equality restriction law: a same-as predicate is allowed exactly when the
/// two operand kinds coincide — every kind this crate models is in the
/// equality rule set, so matching kinds always succeed and differing kinds
/// always fail.
pub proof fn lemma_equality_restriction(left: GeometricKind, right: GeometricKind)
    ensures
        spec_relation_allowed(Relation::SameAs, left, right) <==> left == right,
{
}

/// Builds the predicate `left <relation> right`, validating the operand
/// kinds against the rule tables first.
///
/// Succeeds exactly when the tables allow the pairing; the node then carries
/// the relation and both operands serialized by their own codecs. A refused
/// pairing costs nothing and touches nothing: the error names both kinds.
pub fn build_predicate(relation: Relation, left: &Shape, right: &Shape) -> (r: Result<
    Predicate,
    Error,
>)
    ensures
        (match r {
            Ok(p) => {
                &&& spec_relation_allowed(relation, spec_kind_of(*left), spec_kind_of(*right))
                &&& p.relation == relation
                &&& p.left.kind == spec_kind_of(*left)
                &&& p.left.payload@ == spec_shape_to_bytes(*left)
                &&& p.right.kind == spec_kind_of(*right)
                &&& p.right.payload@ == spec_shape_to_bytes(*right)
            },
            Err(e) => {
                &&& !spec_relation_allowed(relation, spec_kind_of(*left), spec_kind_of(*right))
                &&& e == spec_refusal(relation, spec_kind_of(*left), spec_kind_of(*right))
            },
        }),
{
    let left_kind = left.kind();
    let right_kind = right.kind();
    let allowed = match relation {
        Relation::SameAs => left_kind == right_kind && supports_same_as(left_kind),
        Relation::IsContainedBy => can_be_contained_by(left_kind, right_kind),
    };
    if !allowed {
        let refusal = match relation {
            Relation::SameAs => Error::EqualityNotSupported(left_kind, right_kind),
            Relation::IsContainedBy => Error::ContainmentNotSupported(left_kind, right_kind),
        };
        return Err(refusal);
    }
    Ok(
        Predicate {
            relation,
            left: Operand { kind: left_kind, payload: left.encode() },
            right: Operand { kind: right_kind, payload: right.encode() },
        },
    )
}

} // verus!
