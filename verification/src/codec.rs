//! The binary codecs for the three geometric values.
//!
//! Byte-exact wire layouts, big-endian throughout:
//!
//! | Type   | Size     | Layout                                                 |
//! |--------|----------|--------------------------------------------------------|
//! | Point  | 16 bytes | x, y                                                   |
//! | Box    | 32 bytes | upper_right.x, upper_right.y, lower_left.x, lower_left.y |
//! | Circle | 24 bytes | center.x, center.y, radius                             |
//!
//! The box layout is the one place where the wire order differs from the
//! caller-facing order: the *second* canonical corner is written first, and
//! decoding reads the first half back as the upper-right corner. Encode and
//! decode honor that convention symmetrically, so the round trip is the
//! identity even for boxes whose corners are not in geometric order.
//!
//! Every decoder fails with [`Error::MalformedInput`] when given fewer bytes
//! than its fixed size; it never speculates on missing bytes. Bytes beyond
//! the fixed size are ignored, as a reader of a larger buffer expects.

use crate::error::Error;
use crate::geometry::Box;
use crate::geometry::Circle;
use crate::geometry::Point;
use crate::wire::push_u64_be;
use crate::wire::read_u64_be;
use crate::wire::spec_u64_from_be_bytes;
use crate::wire::spec_u64_to_be_bytes;
use crate::wire::lemma_u64_be_bytes_round_trip;
use vstd::prelude::*;

verus! {

/// The fixed wire size of a point.
pub const POINT_WIRE_SIZE: usize = 16;

/// The fixed wire size of a box.
pub const BOX_WIRE_SIZE: usize = 32;

/// The fixed wire size of a circle.
pub const CIRCLE_WIRE_SIZE: usize = 24;

/// The 16 wire bytes of a point: x first, then y, each big-endian.
pub open spec fn spec_point_to_bytes(p: Point) -> Seq<u8> {
    spec_u64_to_be_bytes(p.x_bits) + spec_u64_to_be_bytes(p.y_bits)
}

/// The point read from the first 16 bytes of `s`.
pub open spec fn spec_point_from_bytes(s: Seq<u8>) -> Point
    recommends
        s.len() >= 16,
{
    Point {
        x_bits: spec_u64_from_be_bytes(s.subrange(0, 8)),
        y_bits: spec_u64_from_be_bytes(s.subrange(8, 16)),
    }
}

/// The 32 wire bytes of a box: the upper-right corner first, then the
/// lower-left — the reverse of the canonical caller-facing order.
pub open spec fn spec_box_to_bytes(b: Box) -> Seq<u8> {
    spec_point_to_bytes(b.upper_right) + spec_point_to_bytes(b.lower_left)
}

/// The box read from the first 32 bytes of `s`: the first half is the
/// upper-right corner, the second half the lower-left.
pub open spec fn spec_box_from_bytes(s: Seq<u8>) -> Box
    recommends
        s.len() >= 32,
{
    Box {
        lower_left: spec_point_from_bytes(s.subrange(16, 32)),
        upper_right: spec_point_from_bytes(s.subrange(0, 16)),
    }
}

/// The 24 wire bytes of a circle: the center point, then the radius.
pub open spec fn spec_circle_to_bytes(c: Circle) -> Seq<u8> {
    spec_point_to_bytes(c.center) + spec_u64_to_be_bytes(c.radius_bits)
}

/// The circle read from the first 24 bytes of `s`.
pub open spec fn spec_circle_from_bytes(s: Seq<u8>) -> Circle
    recommends
        s.len() >= 24,
{
    Circle {
        center: spec_point_from_bytes(s.subrange(0, 16)),
        radius_bits: spec_u64_from_be_bytes(s.subrange(16, 24)),
    }
}

/// Encodes a point into its 16 wire bytes.
pub fn encode_point(p: &Point) -> (out: Vec<u8>)
    ensures
        out@ == spec_point_to_bytes(*p),
        out@.len() == POINT_WIRE_SIZE,
{
    let mut out: Vec<u8> = Vec::new();
    push_u64_be(&mut out, p.x_bits);
    push_u64_be(&mut out, p.y_bits);
    proof {
        assert(out@ =~= spec_point_to_bytes(*p));
    }
    out
}

/// Decodes a point from the first 16 bytes of `bytes`; fails with
/// [`Error::MalformedInput`] when fewer than 16 bytes are available.
pub fn decode_point(bytes: &[u8]) -> (r: Result<Point, Error>)
    ensures
        bytes@.len() >= POINT_WIRE_SIZE ==> r == Ok::<Point, Error>(spec_point_from_bytes(bytes@)),
        bytes@.len() < POINT_WIRE_SIZE ==> r == Err::<Point, Error>(Error::MalformedInput),
{
    if bytes.len() < POINT_WIRE_SIZE {
        return Err(Error::MalformedInput);
    }
    let x_bits = read_u64_be(bytes, 0);
    let y_bits = read_u64_be(bytes, 8);
    Ok(Point { x_bits, y_bits })
}

/// Encodes a box into its 32 wire bytes, writing the upper-right corner
/// first as the wire convention demands.
pub fn encode_box(b: &Box) -> (out: Vec<u8>)
    ensures
        out@ == spec_box_to_bytes(*b),
        out@.len() == BOX_WIRE_SIZE,
{
    let mut out: Vec<u8> = Vec::new();
    push_u64_be(&mut out, b.upper_right.x_bits);
    push_u64_be(&mut out, b.upper_right.y_bits);
    push_u64_be(&mut out, b.lower_left.x_bits);
    push_u64_be(&mut out, b.lower_left.y_bits);
    proof {
        assert(out@ =~= spec_box_to_bytes(*b));
    }
    out
}

/// Decodes a box from the first 32 bytes of `bytes`, reading the upper-right
/// corner from the first half and handing the corners back in canonical
/// order; fails with [`Error::MalformedInput`] when fewer than 32 bytes are
/// available.
pub fn decode_box(bytes: &[u8]) -> (r: Result<Box, Error>)
    ensures
        bytes@.len() >= BOX_WIRE_SIZE ==> r == Ok::<Box, Error>(spec_box_from_bytes(bytes@)),
        bytes@.len() < BOX_WIRE_SIZE ==> r == Err::<Box, Error>(Error::MalformedInput),
{
    if bytes.len() < BOX_WIRE_SIZE {
        return Err(Error::MalformedInput);
    }
    let upper_right = Point { x_bits: read_u64_be(bytes, 0), y_bits: read_u64_be(bytes, 8) };
    let lower_left = Point { x_bits: read_u64_be(bytes, 16), y_bits: read_u64_be(bytes, 24) };
    proof {
        let s = bytes@;
        assert(s.subrange(0, 16).subrange(0, 8) =~= s.subrange(0, 8));
        assert(s.subrange(0, 16).subrange(8, 16) =~= s.subrange(8, 16));
        assert(s.subrange(16, 32).subrange(0, 8) =~= s.subrange(16, 24));
        assert(s.subrange(16, 32).subrange(8, 16) =~= s.subrange(24, 32));
    }
    Ok(Box { lower_left, upper_right })
}

/// Encodes a circle into its 24 wire bytes: center, then radius.
pub fn encode_circle(c: &Circle) -> (out: Vec<u8>)
    ensures
        out@ == spec_circle_to_bytes(*c),
        out@.len() == CIRCLE_WIRE_SIZE,
{
    let mut out: Vec<u8> = Vec::new();
    push_u64_be(&mut out, c.center.x_bits);
    push_u64_be(&mut out, c.center.y_bits);
    push_u64_be(&mut out, c.radius_bits);
    proof {
        assert(out@ =~= spec_circle_to_bytes(*c));
    }
    out
}

/// Decodes a circle from the first 24 bytes of `bytes`; fails with
/// [`Error::MalformedInput`] when fewer than 24 bytes are available.
pub fn decode_circle(bytes: &[u8]) -> (r: Result<Circle, Error>)
    ensures
        bytes@.len() >= CIRCLE_WIRE_SIZE ==> r == Ok::<Circle, Error>(
            spec_circle_from_bytes(bytes@),
        ),
        bytes@.len() < CIRCLE_WIRE_SIZE ==> r == Err::<Circle, Error>(Error::MalformedInput),
{
    if bytes.len() < CIRCLE_WIRE_SIZE {
        return Err(Error::MalformedInput);
    }
    let center = Point { x_bits: read_u64_be(bytes, 0), y_bits: read_u64_be(bytes, 8) };
    let radius_bits = read_u64_be(bytes, 16);
    proof {
        let s = bytes@;
        assert(s.subrange(0, 16).subrange(0, 8) =~= s.subrange(0, 8));
        assert(s.subrange(0, 16).subrange(8, 16) =~= s.subrange(8, 16));
    }
    Ok(Circle { center, radius_bits })
}

/// Round-trip law for points: decoding the bytes an encode produced yields
/// the point that was encoded, bit for bit, for every point.
pub proof fn lemma_point_round_trip(p: Point)
    ensures
        spec_point_from_bytes(spec_point_to_bytes(p)) == p,
{
    let s = spec_point_to_bytes(p);
    assert(s.subrange(0, 8) =~= spec_u64_to_be_bytes(p.x_bits));
    assert(s.subrange(8, 16) =~= spec_u64_to_be_bytes(p.y_bits));
    lemma_u64_be_bytes_round_trip(p.x_bits);
    lemma_u64_be_bytes_round_trip(p.y_bits);
}

/// Round-trip law for boxes: the corner swap on encode and the swap back on
/// decode cancel, so every box — degenerate or with corners out of
/// geometric order — comes back exactly as it went in.
pub proof fn lemma_box_round_trip(b: Box)
    ensures
        spec_box_from_bytes(spec_box_to_bytes(b)) == b,
{
    let s = spec_box_to_bytes(b);
    assert(s.subrange(0, 16) =~= spec_point_to_bytes(b.upper_right));
    assert(s.subrange(16, 32) =~= spec_point_to_bytes(b.lower_left));
    lemma_point_round_trip(b.upper_right);
    lemma_point_round_trip(b.lower_left);
}

/// Round-trip law for circles: every circle, including one with a zero or
/// negative radius, decodes back from its own encoding bit for bit.
pub proof fn lemma_circle_round_trip(c: Circle)
    ensures
        spec_circle_from_bytes(spec_circle_to_bytes(c)) == c,
{
    let s = spec_circle_to_bytes(c);
    assert(s.subrange(0, 16) =~= spec_point_to_bytes(c.center));
    assert(s.subrange(16, 24) =~= spec_u64_to_be_bytes(c.radius_bits));
    lemma_point_round_trip(c.center);
    lemma_u64_be_bytes_round_trip(c.radius_bits);
}

} // verus!
