use pg_geometry::codec::BOX_WIRE_SIZE;
use pg_geometry::codec::CIRCLE_WIRE_SIZE;
use pg_geometry::codec::POINT_WIRE_SIZE;
use pg_geometry::decode_box;
use pg_geometry::decode_circle;
use pg_geometry::decode_point;
use pg_geometry::encode_box;
use pg_geometry::encode_circle;
use pg_geometry::encode_point;
use pg_geometry::Box;
use pg_geometry::Circle;
use pg_geometry::Error;
use pg_geometry::Point;

fn point(x: f64, y: f64) -> Point {
    Point {
        x_bits: x.to_bits(),
        y_bits: y.to_bits(),
    }
}

fn rect(lower_left: Point, upper_right: Point) -> Box {
    Box {
        lower_left,
        upper_right,
    }
}

fn circle(center: Point, radius: f64) -> Circle {
    Circle {
        center,
        radius_bits: radius.to_bits(),
    }
}

#[test]
fn point_encodes_correctly() {
    // The server writes point '(3, 4)' as two big-endian 64-bit values.
    let encoded = encode_point(&point(3.0, 4.0));
    let mut expected = 3.0f64.to_be_bytes().to_vec();
    expected.extend_from_slice(&4.0f64.to_be_bytes());
    assert_eq!(encoded, expected);
}

#[test]
fn box_roundtrip() {
    let data = rect(point(0., 0.), point(3., 4.));
    let encoded = encode_box(&data);
    match decode_box(&encoded) {
        Ok(record) => assert_eq!(data, record),
        Err(_) => panic!(),
    }
}

#[test]
fn circle_roundtrip() {
    let data = circle(point(3., 4.), 1.5);
    let encoded = encode_circle(&data);
    match decode_circle(&encoded) {
        Ok(record) => assert_eq!(data, record),
        Err(_) => panic!(),
    }
}

#[test]
fn point_roundtrip() {
    let data = point(3.1, 9.4);
    assert_eq!(decode_point(&encode_point(&data)), Ok(data));
}

#[test]
fn roundtrip_special_values() {
    let specials = [
        f64::NAN,
        f64::INFINITY,
        f64::NEG_INFINITY,
        -0.0,
        0.0,
        f64::MIN,
        f64::MAX,
        f64::MIN_POSITIVE,
        -1.5e-300,
    ];
    for &x in &specials {
        for &y in &specials {
            let p = point(x, y);
            assert_eq!(decode_point(&encode_point(&p)), Ok(p));
            let b = rect(p, point(y, x));
            assert_eq!(decode_box(&encode_box(&b)), Ok(b));
            let c = circle(p, y);
            assert_eq!(decode_circle(&encode_circle(&c)), Ok(c));
        }
    }
}

#[test]
fn roundtrip_degenerate_boxes() {
    // Zero width and height.
    let b = rect(point(1.0, 2.0), point(1.0, 2.0));
    assert_eq!(decode_box(&encode_box(&b)), Ok(b));
    // Corners in the "wrong" geometric order pass through unvalidated.
    let b = rect(point(10.0, 10.0), point(-1.0, -2.0));
    assert_eq!(decode_box(&encode_box(&b)), Ok(b));
}

#[test]
fn roundtrip_negative_and_zero_radius() {
    let c = circle(point(0.0, 0.0), -2.5);
    assert_eq!(decode_circle(&encode_circle(&c)), Ok(c));
    let c = circle(point(0.0, 0.0), 0.0);
    assert_eq!(decode_circle(&encode_circle(&c)), Ok(c));
}

#[test]
fn corner_order_regression() {
    // Encoding writes the upper-right corner first.
    let b = rect(point(0.0, 0.0), point(3.0, 4.0));
    let encoded = encode_box(&b);
    let mut expected = encode_point(&point(3.0, 4.0));
    expected.extend_from_slice(&encode_point(&point(0.0, 0.0)));
    assert_eq!(encoded, expected);
    // Decoding those 32 bytes hands the corners back in canonical order.
    assert_eq!(
        decode_box(&expected),
        Ok(rect(point(0.0, 0.0), point(3.0, 4.0)))
    );
}

#[test]
fn boundary_sizes() {
    assert_eq!(decode_point(&[0u8; 15]), Err(Error::MalformedInput));
    assert_eq!(decode_box(&[0u8; 31]), Err(Error::MalformedInput));
    assert_eq!(decode_circle(&[0u8; 23]), Err(Error::MalformedInput));
    assert!(decode_point(&[0u8; 16]).is_ok());
    assert!(decode_box(&[0u8; 32]).is_ok());
    assert!(decode_circle(&[0u8; 24]).is_ok());
    assert_eq!(decode_point(&[]), Err(Error::MalformedInput));
}

#[test]
fn trailing_bytes_are_ignored() {
    let p = point(6.25, -8.5);
    let mut encoded = encode_point(&p);
    encoded.push(0xAA);
    assert_eq!(decode_point(&encoded), Ok(p));
}

#[test]
fn wire_sizes() {
    assert_eq!(POINT_WIRE_SIZE, 16);
    assert_eq!(BOX_WIRE_SIZE, 32);
    assert_eq!(CIRCLE_WIRE_SIZE, 24);
    assert_eq!(encode_point(&point(1.0, 2.0)).len(), 16);
    assert_eq!(encode_box(&rect(point(1.0, 2.0), point(3.0, 4.0))).len(), 32);
    assert_eq!(encode_circle(&circle(point(1.0, 2.0), 3.0)).len(), 24);
}

#[test]
fn concrete_scenario() {
    // Encoding Point(3.0, 4.0) gives 16 bytes whose halves are the
    // big-endian representations of 3.0 and 4.0.
    let encoded = encode_point(&point(3.0, 4.0));
    assert_eq!(encoded.len(), 16);
    let first: [u8; 8] = encoded[0..8].try_into().unwrap();
    let second: [u8; 8] = encoded[8..16].try_into().unwrap();
    assert_eq!(f64::from_be_bytes(first), 3.0);
    assert_eq!(f64::from_be_bytes(second), 4.0);
}
