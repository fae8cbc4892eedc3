//! Geometric values in the PostgreSQL binary wire format.
//!
//! The crate models the three geometric values a PostgreSQL server exchanges
//! in fixed binary layouts — a point, an axis-aligned box, and a circle — and
//! proves the codec that moves each of them to and from its wire bytes,
//! including the corner-reordering convention that the box layout demands.
//! On top of the codecs sit the closed rule tables that say which kinds may
//! be compared with the server's containment and areal-equality operators,
//! and a predicate builder that validates a requested comparison against
//! those tables before serializing its operands.
//!
//! Coordinates travel as 64-bit IEEE-754 values, but the codec never
//! interprets them numerically: it only moves their bytes. The crate
//! therefore stores each coordinate as its raw 64-bit pattern, which makes
//! every round trip exact, bit for bit, including NaN and infinities.

pub mod codec;
pub mod error;
pub mod geometry;
pub mod predicate;
pub mod rules;
pub mod wire;

pub use codec::decode_box;
pub use codec::decode_circle;
pub use codec::decode_point;
pub use codec::encode_box;
pub use codec::encode_circle;
pub use codec::encode_point;
pub use error::Error;
pub use geometry::Box;
pub use geometry::Circle;
pub use geometry::GeometricKind;
pub use geometry::Point;
pub use predicate::Operand;
pub use predicate::Predicate;
pub use predicate::Relation;
pub use predicate::Shape;
pub use predicate::build_predicate;
pub use rules::CanBeContainedByBox;
pub use rules::CanBeContainedByCircle;
pub use rules::can_be_contained_by;
pub use rules::supports_same_as;
pub use wire::push_u64_be;
pub use wire::read_u64_be;
