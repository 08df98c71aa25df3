//! The big-endian well-known-binary encoding of a geometry.
use vstd::prelude::*;

use crate::geometry::{parse_spec, GeoJson, Geometry, GeometryError, Position};
use crate::hex::{byte_hex, hex_of, to_hex};
use crate::json::JsonValue;

verus! {

/// The byte-order flag that opens every encoding: big-endian.
pub const BIG_ENDIAN: u8 = 0;

/// The geometry-type code of a point.
pub const POINT_CODE: u32 = 1;

/// The geometry-type code of a line string.
pub const LINE_STRING_CODE: u32 = 2;

/// The geometry-type code of a multi-line string.
pub const MULTI_LINE_STRING_CODE: u32 = 5;

/// The four bytes of `n`, most significant first.
pub open spec fn be_u32(n: u32) -> Seq<u8> {
    seq![
        (n / 0x100_0000) as u8,
        (n / 0x1_0000 % 0x100) as u8,
        (n / 0x100 % 0x100) as u8,
        (n % 0x100) as u8,
    ]
}

/// The eight bytes of `n`, most significant first.
pub open spec fn be_u64(n: u64) -> Seq<u8> {
    be_u32((n / 0x1_0000_0000) as u32) + be_u32((n % 0x1_0000_0000) as u32)
}

/// The number that four bytes spell, most significant first.
pub open spec fn be_u32_value(b: Seq<u8>) -> int {
    b[0] * 0x100_0000 + b[1] * 0x1_0000 + b[2] * 0x100 + b[3]
}

/// The sixteen bytes of a coordinate pair: its components in input order.
pub open spec fn position_bytes(p: Position) -> Seq<u8> {
    be_u64(p.0) + be_u64(p.1)
}

/// The bytes of a sequence of coordinate pairs, in order.
pub open spec fn positions_bytes(s: Seq<Position>) -> Seq<u8>
    decreases s.len(),
{
    if s.len() == 0 {
        Seq::empty()
    } else {
        positions_bytes(s.drop_last()) + position_bytes(s.last())
    }
}

/// Whether the encoding can hold the geometry: a line string's point count
/// must fit its 32-bit field.
pub open spec fn encodable(g: Geometry) -> bool {
    match g {
        Geometry::LineString(s) => s.len() <= u32::MAX,
        _ => true,
    }
}

/// The big-endian well-known-binary encoding of a geometry.
pub open spec fn wkb_spec(g: Geometry) -> Result<Seq<u8>, GeometryError> {
    match g {
        Geometry::Point(p) => Ok(seq![BIG_ENDIAN] + be_u32(POINT_CODE) + position_bytes(p)),
        Geometry::LineString(s) => Ok(
            seq![BIG_ENDIAN] + be_u32(LINE_STRING_CODE) + be_u32(s.len() as u32) + positions_bytes(
                s,
            ),
        ),
        Geometry::MultiLineString(_) => Err(GeometryError::UnsupportedGeometry),
    }
}

/// The encoding of a geometry rendered as lowercase hexadecimal.
pub open spec fn wkb_hex_spec(g: Geometry) -> Result<Seq<char>, GeometryError> {
    match wkb_spec(g) {
        Ok(b) => Ok(hex_of(b)),
        Err(e) => Err(e),
    }
}

/// What a JSON geometry value turns into: its parse, then its encoding.
pub open spec fn json_wkb_hex_spec(v: JsonValue) -> Result<Seq<char>, GeometryError> {
    match parse_spec(v) {
        Ok(g) => wkb_hex_spec(g),
        Err(e) => Err(e),
    }
}

/// Appends the four bytes of `n`, most significant first.
pub fn push_be_u32(buf: &mut Vec<u8>, n: u32)
    ensures
        final(buf)@ == old(buf)@ + be_u32(n),
{
    buf.push((n / 0x100_0000) as u8);
    buf.push((n / 0x1_0000 % 0x100) as u8);
    buf.push((n / 0x100 % 0x100) as u8);
    buf.push((n % 0x100) as u8);
    assert(buf@ =~= old(buf)@ + be_u32(n));
}

/// Appends the eight bytes of `n`, most significant first.
pub fn push_be_u64(buf: &mut Vec<u8>, n: u64)
    ensures
        final(buf)@ == old(buf)@ + be_u64(n),
{
    push_be_u32(buf, (n / 0x1_0000_0000) as u32);
    push_be_u32(buf, (n % 0x1_0000_0000) as u32);
    assert(buf@ =~= old(buf)@ + be_u64(n));
}

/// Appends the type code of a point and its two components.
pub fn write_point(buf: &mut Vec<u8>, a: u64, b: u64)
    ensures
        final(buf)@ == old(buf)@ + be_u32(POINT_CODE) + position_bytes((a, b)),
{
    push_be_u32(buf, POINT_CODE);
    push_be_u64(buf, a);
    push_be_u64(buf, b);
    assert(buf@ =~= old(buf)@ + be_u32(POINT_CODE) + position_bytes((a, b)));
}

/// Appends the type code of a line string, its point count, and each point's
/// two components in order.
pub fn write_linestring(buf: &mut Vec<u8>, points: &Vec<Position>)
    requires
        points@.len() <= u32::MAX,
    ensures
        final(buf)@ == old(buf)@ + be_u32(LINE_STRING_CODE) + be_u32(points@.len() as u32)
            + positions_bytes(points@),
{
    push_be_u32(buf, LINE_STRING_CODE);
    push_be_u32(buf, points.len() as u32);
    let ghost start = buf@;
    let mut i: usize = 0;
    while i < points.len()
        invariant
            i <= points@.len(),
            buf@ == start + positions_bytes(points@.subrange(0, i as int)),
        decreases points@.len() - i,
    {
        let (a, b) = points[i];
        push_be_u64(buf, a);
        push_be_u64(buf, b);
        proof {
            let next = points@.subrange(0, i + 1);
            assert(next.drop_last() =~= points@.subrange(0, i as int));
            assert(next.last() == (a, b));
            assert(buf@ =~= start + positions_bytes(next));
        }
        i = i + 1;
    }
    assert(points@.subrange(0, points@.len() as int) =~= points@);
    assert(buf@ =~= old(buf)@ + be_u32(LINE_STRING_CODE) + be_u32(points@.len() as u32)
        + positions_bytes(points@));
}

/// Encodes a geometry as big-endian well-known binary. A multi-line string
/// has no encoding and fails with `UnsupportedGeometry`.
pub fn wkb_bytes(geojson: &GeoJson) -> (r: Result<Vec<u8>, GeometryError>)
    requires
        encodable(geojson@),
    ensures
        match r {
            Ok(b) => wkb_spec(geojson@) == Ok::<Seq<u8>, GeometryError>(b@),
            Err(e) => wkb_spec(geojson@) == Err::<Seq<u8>, GeometryError>(e),
        },
{
    let mut buf: Vec<u8> = Vec::new();
    buf.push(BIG_ENDIAN);
    match geojson {
        GeoJson::Point((a, b)) => write_point(&mut buf, *a, *b),
        GeoJson::LineString(points) => write_linestring(&mut buf, points),
        GeoJson::MultiLineString(_) => {
            return Err(GeometryError::UnsupportedGeometry);
        },
    }
    proof {
        assert(seq![BIG_ENDIAN] =~= Seq::<u8>::empty().push(BIG_ENDIAN));
    }
    Ok(buf)
}

/// Encodes a geometry as big-endian well-known binary rendered as lowercase
/// hexadecimal. A multi-line string fails with `UnsupportedGeometry`.
/// Coordinates are written as their bit patterns, so NaN and the infinities
/// pass through unchanged.
pub fn geojson_to_wkb(geojson: &GeoJson) -> (r: Result<String, GeometryError>)
    requires
        encodable(geojson@),
    ensures
        match r {
            Ok(s) => wkb_hex_spec(geojson@) == Ok::<Seq<char>, GeometryError>(s@),
            Err(e) => wkb_hex_spec(geojson@) == Err::<Seq<char>, GeometryError>(e),
        },
{
    match wkb_bytes(geojson) {
        Ok(bytes) => Ok(to_hex(&bytes)),
        Err(e) => Err(e),
    }
}

/// Reads a geometry from a JSON value and encodes it as hexadecimal
/// well-known binary.
pub fn json_to_wkb(v: &JsonValue) -> (r: Result<String, GeometryError>)
    requires
        parse_spec(*v) matches Ok(g) ==> encodable(g),
    ensures
        match r {
            Ok(s) => json_wkb_hex_spec(*v) == Ok::<Seq<char>, GeometryError>(s@),
            Err(e) => json_wkb_hex_spec(*v) == Err::<Seq<char>, GeometryError>(e),
        },
{
    let g = GeoJson::from_json(v);
    match g {
        Ok(g) => geojson_to_wkb(&g),
        Err(e) => Err(e),
    }
}

/// Rendering two byte sequences one after the other gives the two renderings
/// one after the other.
pub proof fn lemma_hex_of_concat(a: Seq<u8>, b: Seq<u8>)
    ensures
        hex_of(a + b) == hex_of(a) + hex_of(b),
    decreases b.len(),
{
    if b.len() == 0 {
        assert(a + b =~= a);
        assert(hex_of(b) =~= Seq::<char>::empty());
        assert(hex_of(a) + hex_of(b) =~= hex_of(a));
    } else {
        lemma_hex_of_concat(a, b.drop_last());
        assert((a + b).drop_last() =~= a + b.drop_last());
        assert((a + b).last() == b.last());
        assert(hex_of(a + b) =~= hex_of(a) + hex_of(b));
    }
}

/// One byte renders as its two digits.
pub proof fn lemma_hex_of_byte(b: u8)
    ensures
        hex_of(seq![b]) == byte_hex(b),
{
    assert(seq![b].drop_last() =~= Seq::<u8>::empty());
    assert(hex_of(Seq::<u8>::empty()) =~= Seq::<char>::empty());
    assert(Seq::<char>::empty() + byte_hex(b) =~= byte_hex(b));
}

/// A rendering has two digits per byte.
pub proof fn lemma_hex_of_len(a: Seq<u8>)
    ensures
        hex_of(a).len() == 2 * a.len(),
    decreases a.len(),
{
    if a.len() > 0 {
        lemma_hex_of_len(a.drop_last());
    }
}

/// A sequence of coordinate pairs takes sixteen bytes per pair.
pub proof fn lemma_positions_bytes_len(s: Seq<Position>)
    ensures
        positions_bytes(s).len() == 16 * s.len(),
    decreases s.len(),
{
    if s.len() > 0 {
        lemma_positions_bytes_len(s.drop_last());
    }
}

/// Four big-endian bytes read back as the number they were written from.
pub proof fn lemma_be_u32_round_trip(n: u32)
    ensures
        be_u32_value(be_u32(n)) == n,
{
    let b = be_u32(n);
    assert(b[0] == n / 0x100_0000);
    assert(b[1] == n / 0x1_0000 % 0x100);
    assert(b[2] == n / 0x100 % 0x100);
    assert(b[3] == n % 0x100);
}

/// Every point encodes to 42 hexadecimal digits: the big-endian flag `00`,
/// then the type code 1 as eight digits.
pub proof fn lemma_point_layout(a: u64, b: u64)
    ensures
        wkb_hex_spec(Geometry::Point((a, b))) matches Ok(h) && h.len() == 42
            && h.subrange(0, 2) == seq!['0', '0']
            && h.subrange(2, 10) == seq!['0', '0', '0', '0', '0', '0', '0', '1'],
{
    let head = seq![BIG_ENDIAN];
    let code = be_u32(POINT_CODE);
    let body = position_bytes((a, b));
    lemma_hex_of_concat(head + code, body);
    lemma_hex_of_concat(head, code);
    lemma_hex_of_len(body);
    assert(body.len() == 16);
    assert(code =~= seq![0u8, 0u8, 0u8, 1u8]);
    lemma_hex_of_byte(BIG_ENDIAN);
    let zero = seq![0u8];
    assert(code =~= zero + zero + zero + seq![1u8]);
    lemma_hex_of_byte(1u8);
    lemma_hex_of_concat(zero, zero);
    lemma_hex_of_concat(zero + zero, zero);
    lemma_hex_of_concat(zero + zero + zero, seq![1u8]);
    assert(hex_of(code) =~= seq!['0', '0', '0', '0', '0', '0', '0', '1']);
    let h = hex_of(head + code + body);
    assert(h.subrange(0, 2) =~= seq!['0', '0']);
    assert(h.subrange(2, 10) =~= seq!['0', '0', '0', '0', '0', '0', '0', '1']);
}

/// A line string of `N` points encodes to `2 * (1 + 4 + 4 + 16 * N)`
/// hexadecimal digits, and its count field reads back as `N`.
pub proof fn lemma_linestring_layout(s: Seq<Position>)
    requires
        s.len() <= u32::MAX,
    ensures
        wkb_spec(Geometry::LineString(s)) matches Ok(b) && be_u32_value(b.subrange(5, 9))
            == s.len(),
        wkb_hex_spec(Geometry::LineString(s)) matches Ok(h) && h.len() == 2 * (1 + 4 + 4 + 16
            * s.len()),
{
    let b = seq![BIG_ENDIAN] + be_u32(LINE_STRING_CODE) + be_u32(s.len() as u32)
        + positions_bytes(s);
    lemma_positions_bytes_len(s);
    lemma_hex_of_len(b);
    lemma_be_u32_round_trip(s.len() as u32);
    assert(b.subrange(5, 9) =~= be_u32(s.len() as u32));
}

/// Encoding is a function of the geometry: equal geometries give equal
/// results, so encoding the same geometry twice gives the same output.
pub proof fn lemma_encoding_deterministic(g1: Geometry, g2: Geometry)
    requires
        g1 == g2,
    ensures
        wkb_hex_spec(g1) == wkb_hex_spec(g2),
{
}

/// A multi-line string with well-formed coordinates fails as unsupported,
/// while a value whose `type` names no known geometry fails as
/// unrecognized: the two failures are told apart.
pub proof fn lemma_rejections_differ(multi: JsonValue, other: JsonValue)
    requires
        crate::json::string_field(multi, "type"@) == Some("MultiLineString"@),
        crate::geometry::lines_of(crate::geometry::coordinates_of(multi)) is Some,
        crate::json::string_field(other, "type"@) != Some("Point"@),
        crate::json::string_field(other, "type"@) != Some("LineString"@),
        crate::json::string_field(other, "type"@) != Some("MultiLineString"@),
    ensures
        json_wkb_hex_spec(multi) == Err::<Seq<char>, GeometryError>(
            GeometryError::UnsupportedGeometry,
        ),
        json_wkb_hex_spec(other) == Err::<Seq<char>, GeometryError>(
            GeometryError::UnrecognizedGeometryType,
        ),
        json_wkb_hex_spec(multi) != json_wkb_hex_spec(other),
{
    reveal_strlit("Point");
    reveal_strlit("LineString");
    reveal_strlit("MultiLineString");
    assert("MultiLineString"@.len() == 15);
    assert("Point"@.len() == 5);
    assert("LineString"@.len() == 10);
    assert(parse_spec(other) == Err::<Geometry, GeometryError>(
        GeometryError::UnrecognizedGeometryType,
    ));
    assert(parse_spec(multi) is Ok);
}

} // verus!
