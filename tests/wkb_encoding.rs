use motiontag_downloader::geometry::{GeoJson, GeometryError};
use motiontag_downloader::hex::to_hex;
use motiontag_downloader::json::JsonValue;
use motiontag_downloader::wkb::{geojson_to_wkb, json_to_wkb, wkb_bytes};

fn num(x: f64) -> JsonValue {
    JsonValue::Number(x.to_bits())
}

fn text(s: &str) -> JsonValue {
    JsonValue::Str(s.to_string())
}

fn pair(a: f64, b: f64) -> JsonValue {
    JsonValue::Array(vec![num(a), num(b)])
}

fn geometry(kind: &str, coordinates: JsonValue) -> JsonValue {
    JsonValue::Object(vec![
        ("type".to_string(), text(kind)),
        ("coordinates".to_string(), coordinates),
    ])
}

fn line(points: &[(f64, f64)]) -> JsonValue {
    JsonValue::Array(points.iter().map(|&(a, b)| pair(a, b)).collect())
}

#[test]
fn test_point() {
    let expected = "00000000014021670ab1639dea40490d30eae44d71";

    let geojson = geometry("Point", pair(8.701253455553303, 50.10305534503539));

    let result = geojson_to_wkb(&GeoJson::from_json(&geojson).unwrap());

    assert_eq!(result, Ok(expected.to_string()))
}

#[test]
fn test_linestring() {
    let expected = "00000000020000000740216712ac8a7c1040490d396815cb77402166d34fb9184440490d2b491f6128402166cdd3d8b84a40490d2b471e9498402166ab0ec2256d40490d28aad3469d402166ab0faab85d40490d28aa3b7800402166ab0e3273b040490d28aa25a32c402166e568a5050840490d095ffb125a";

    let geojson = geometry(
        "LineString",
        line(&[
            (8.701314346222745, 50.103314409868226),
            (8.700830928177432, 50.10288347274974),
            (8.700789089398445, 50.10288323395906),
            (8.700523816298949, 50.1028035670872),
            (8.700523843374123, 50.10280349639652),
            (8.700523799570732, 50.1028034862305),
            (8.700969, 50.1018486),
        ]),
    );

    let result = geojson_to_wkb(&GeoJson::from_json(&geojson).unwrap());

    assert_eq!(result, Ok(expected.to_string()));
}

#[test]
fn point_parses_components_in_order() {
    let g = GeoJson::from_json(&geometry("Point", pair(1.5, -2.0))).unwrap();
    assert_eq!(g, GeoJson::Point((1.5f64.to_bits(), (-2.0f64).to_bits())));
}

#[test]
fn point_encoding_has_fixed_layout() {
    for &(a, b) in &[(0.0, 0.0), (-180.0, 90.0), (f64::MAX, f64::MIN_POSITIVE)] {
        let hex = geojson_to_wkb(&GeoJson::Point((f64::to_bits(a), f64::to_bits(b)))).unwrap();
        assert_eq!(hex.len(), 42);
        assert_eq!(&hex[0..2], "00");
        assert_eq!(u32::from_str_radix(&hex[2..10], 16).unwrap(), 1);
    }
}

#[test]
fn point_with_one_coordinate_bytes() {
    let hex = geojson_to_wkb(&GeoJson::Point((1.0f64.to_bits(), 2.0f64.to_bits()))).unwrap();
    assert_eq!(hex, "00000000013ff00000000000004000000000000000");
}

#[test]
fn nan_and_infinity_keep_their_bit_patterns() {
    let hex = geojson_to_wkb(&GeoJson::Point((f64::NAN.to_bits(), f64::INFINITY.to_bits()))).unwrap();
    assert_eq!(hex, "00000000017ff80000000000007ff0000000000000");
}

#[test]
fn linestring_encoding_length_and_count() {
    for n in [0usize, 1, 3, 300] {
        let points: Vec<(u64, u64)> = (0..n).map(|i| ((i as f64).to_bits(), (-(i as f64)).to_bits())).collect();
        let bytes = wkb_bytes(&GeoJson::LineString(points.clone())).unwrap();
        assert_eq!(bytes.len(), 1 + 4 + 4 + 16 * n);
        assert_eq!(u32::from_be_bytes([bytes[5], bytes[6], bytes[7], bytes[8]]) as usize, n);
        let hex = geojson_to_wkb(&GeoJson::LineString(points)).unwrap();
        assert_eq!(hex.len(), 2 * (1 + 4 + 4 + 16 * n));
        assert_eq!(&hex[0..10], "0000000002");
    }
}

#[test]
fn empty_linestring_encodes_count_zero() {
    let g = GeoJson::from_json(&geometry("LineString", JsonValue::Array(vec![]))).unwrap();
    assert_eq!(geojson_to_wkb(&g), Ok("000000000200000000".to_string()));
}

#[test]
fn encoding_twice_gives_the_same_output() {
    let v = geometry("LineString", line(&[(8.7, 50.1), (8.8, 50.2)]));
    let g = GeoJson::from_json(&v).unwrap();
    let first = geojson_to_wkb(&g);
    let second = geojson_to_wkb(&g);
    assert!(first.is_ok());
    assert_eq!(first, second);
    assert_eq!(json_to_wkb(&v), json_to_wkb(&v));
}

#[test]
fn multilinestring_and_polygon_fail_differently() {
    let multi = geometry("MultiLineString", JsonValue::Array(vec![line(&[(1.0, 2.0), (3.0, 4.0)])]));
    let polygon = geometry("Polygon", JsonValue::Array(vec![line(&[(1.0, 2.0), (3.0, 4.0), (1.0, 2.0)])]));
    let a = json_to_wkb(&multi);
    let b = json_to_wkb(&polygon);
    assert_eq!(a, Err(GeometryError::UnsupportedGeometry));
    assert_eq!(b, Err(GeometryError::UnrecognizedGeometryType));
    assert_ne!(a, b);
    let parsed = GeoJson::from_json(&multi).unwrap();
    assert_eq!(
        parsed,
        GeoJson::MultiLineString(vec![vec![
            (1.0f64.to_bits(), 2.0f64.to_bits()),
            (3.0f64.to_bits(), 4.0f64.to_bits()),
        ]])
    );
    assert_eq!(geojson_to_wkb(&parsed), Err(GeometryError::UnsupportedGeometry));
}

#[test]
fn point_with_one_component_is_malformed() {
    let v = geometry("Point", JsonValue::Array(vec![num(1.0)]));
    assert_eq!(GeoJson::from_json(&v), Err(GeometryError::MalformedCoordinates));
    assert_eq!(json_to_wkb(&v), Err(GeometryError::MalformedCoordinates));
}

#[test]
fn malformed_coordinates_are_rejected() {
    let three = geometry("Point", JsonValue::Array(vec![num(1.0), num(2.0), num(3.0)]));
    let strings = geometry("Point", JsonValue::Array(vec![text("1"), text("2")]));
    let missing = JsonValue::Object(vec![("type".to_string(), text("Point"))]);
    let bad_line = geometry("LineString", JsonValue::Array(vec![pair(1.0, 2.0), JsonValue::Array(vec![num(1.0)])]));
    let flat_line = geometry("LineString", pair(1.0, 2.0));
    let bad_multi = geometry("MultiLineString", JsonValue::Array(vec![pair(1.0, 2.0)]));
    for v in [three, strings, missing, bad_line, flat_line, bad_multi] {
        assert_eq!(GeoJson::from_json(&v), Err(GeometryError::MalformedCoordinates));
    }
}

#[test]
fn unknown_or_missing_type_is_unrecognized() {
    let no_type = JsonValue::Object(vec![("coordinates".to_string(), pair(1.0, 2.0))]);
    let number_type = JsonValue::Object(vec![
        ("type".to_string(), num(1.0)),
        ("coordinates".to_string(), pair(1.0, 2.0)),
    ]);
    let lower = geometry("point", pair(1.0, 2.0));
    for v in [no_type, number_type, lower, JsonValue::Null, JsonValue::Array(vec![])] {
        assert_eq!(GeoJson::from_json(&v), Err(GeometryError::UnrecognizedGeometryType));
    }
}

#[test]
fn hex_rendering_is_lowercase_two_digits_per_byte() {
    assert_eq!(to_hex(&vec![]), "");
    assert_eq!(to_hex(&vec![0x00, 0xff, 0x0a, 0xb7, 0x10]), "00ff0ab710");
}
