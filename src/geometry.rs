//! Geometries and how they are read from a JSON value.
use vstd::prelude::*;

use crate::json::{field, get_field, get_string_field, string_field, JsonValue};

verus! {

/// A coordinate pair, each component held as the IEEE-754 bit pattern of a
/// double, in the order the input gave them.
pub type Position = (u64, u64);

/// A geometry: a point, a line string, or a multi-line string.
#[derive(Debug, PartialEq)]
pub enum GeoJson {
    Point(Position),
    LineString(Vec<Position>),
    MultiLineString(Vec<Vec<Position>>),
}

/// The mathematical value of a geometry.
pub enum Geometry {
    Point(Position),
    LineString(Seq<Position>),
    MultiLineString(Seq<Seq<Position>>),
}

impl View for GeoJson {
    type V = Geometry;

    open spec fn view(&self) -> Geometry {
        match self {
            GeoJson::Point(p) => Geometry::Point(*p),
            GeoJson::LineString(pts) => Geometry::LineString(pts@),
            GeoJson::MultiLineString(lines) => Geometry::MultiLineString(
                lines@.map_values(|l: Vec<Position>| l@),
            ),
        }
    }
}

/// Why a geometry could not be read or encoded.
#[derive(Debug, Clone, Copy, PartialEq, Eq, Structural)]
pub enum GeometryError {
    /// The coordinates do not have the shape that the geometry's type asks for.
    MalformedCoordinates,
    /// The `type` member is missing, is not a string, or names no known geometry.
    UnrecognizedGeometryType,
    /// The geometry is known but has no encoding.
    UnsupportedGeometry,
}

/// A coordinate pair: an array of exactly two numbers.
pub open spec fn pair_of(v: JsonValue) -> Option<Position> {
    match v {
        JsonValue::Array(items) => if items@.len() == 2 && items@[0] is Number && items@[1] is Number {
            Some((items@[0]->Number_0, items@[1]->Number_0))
        } else {
            None
        },
        _ => None,
    }
}

/// A sequence of coordinate pairs: an array all of whose items are pairs.
pub open spec fn pairs_of(v: JsonValue) -> Option<Seq<Position>> {
    match v {
        JsonValue::Array(items) => if forall|i: int| 0 <= i < items@.len() ==> #[trigger] pair_of(items@[i]) is Some {
            Some(items@.map_values(|x: JsonValue| pair_of(x).unwrap()))
        } else {
            None
        },
        _ => None,
    }
}

/// A sequence of sequences of coordinate pairs.
pub open spec fn lines_of(v: JsonValue) -> Option<Seq<Seq<Position>>> {
    match v {
        JsonValue::Array(items) => if forall|i: int| 0 <= i < items@.len() ==> #[trigger] pairs_of(items@[i]) is Some {
            Some(items@.map_values(|x: JsonValue| pairs_of(x).unwrap()))
        } else {
            None
        },
        _ => None,
    }
}

/// The `coordinates` member of `v`, or `null` where it has none.
pub open spec fn coordinates_of(v: JsonValue) -> JsonValue {
    match field(v, "coordinates"@) {
        Some(c) => c,
        None => JsonValue::Null,
    }
}

/// The geometry that `v` describes, or why it describes none.
pub open spec fn parse_spec(v: JsonValue) -> Result<Geometry, GeometryError> {
    let tag = string_field(v, "type"@);
    let coords = coordinates_of(v);
    if tag == Some("Point"@) {
        match pair_of(coords) {
            Some(p) => Ok(Geometry::Point(p)),
            None => Err(GeometryError::MalformedCoordinates),
        }
    } else if tag == Some("LineString"@) {
        match pairs_of(coords) {
            Some(s) => Ok(Geometry::LineString(s)),
            None => Err(GeometryError::MalformedCoordinates),
        }
    } else if tag == Some("MultiLineString"@) {
        match lines_of(coords) {
            Some(s) => Ok(Geometry::MultiLineString(s)),
            None => Err(GeometryError::MalformedCoordinates),
        }
    } else {
        Err(GeometryError::UnrecognizedGeometryType)
    }
}

/// The view of a parse result.
pub open spec fn parsed_view(r: Result<GeoJson, GeometryError>) -> Result<Geometry, GeometryError> {
    match r {
        Ok(g) => Ok(g@),
        Err(e) => Err(e),
    }
}

/// Reads a coordinate pair.
pub fn read_pair(v: &JsonValue) -> (r: Option<Position>)
    ensures
        r == pair_of(*v),
{
    match v {
        JsonValue::Array(items) => {
            if items.len() != 2 {
                return None;
            }
            match (&items[0], &items[1]) {
                (JsonValue::Number(a), JsonValue::Number(b)) => Some((*a, *b)),
                _ => None,
            }
        },
        _ => None,
    }
}

/// Reads a sequence of coordinate pairs, in order.
pub fn read_pairs(v: &JsonValue) -> (r: Option<Vec<Position>>)
    ensures
        match r {
            Some(pts) => pairs_of(*v) == Some(pts@),
            None => pairs_of(*v) is None,
        },
{
    match v {
        JsonValue::Array(items) => {
            let mut pts: Vec<Position> = Vec::new();
            let mut i: usize = 0;
            while i < items.len()
                invariant
                    *v == JsonValue::Array(*items),
                    i <= items@.len(),
                    pts@.len() == i,
                    forall|j: int| 0 <= j < i ==> #[trigger] pair_of(items@[j]) == Some(pts@[j]),
                decreases items@.len() - i,
            {
                match read_pair(&items[i]) {
                    Some(p) => pts.push(p),
                    None => {
                        assert(pair_of(items@[i as int]) is None);
                        return None;
                    },
                }
                i = i + 1;
            }
            assert(forall|j: int| 0 <= j < items@.len() ==> #[trigger] pair_of(items@[j]) is Some);
            assert(pts@ =~= items@.map_values(|x: JsonValue| pair_of(x).unwrap()));
            Some(pts)
        },
        _ => None,
    }
}

/// Reads a sequence of sequences of coordinate pairs, in order.
pub fn read_lines(v: &JsonValue) -> (r: Option<Vec<Vec<Position>>>)
    ensures
        match r {
            Some(lines) => lines_of(*v) == Some(lines@.map_values(|l: Vec<Position>| l@)),
            None => lines_of(*v) is None,
        },
{
    match v {
        JsonValue::Array(items) => {
            let mut lines: Vec<Vec<Position>> = Vec::new();
            let mut i: usize = 0;
            while i < items.len()
                invariant
                    *v == JsonValue::Array(*items),
                    i <= items@.len(),
                    lines@.len() == i,
                    forall|j: int| 0 <= j < i ==> #[trigger] pairs_of(items@[j]) == Some(lines@[j]@),
                decreases items@.len() - i,
            {
                match read_pairs(&items[i]) {
                    Some(pts) => lines.push(pts),
                    None => {
                        assert(pairs_of(items@[i as int]) is None);
                        return None;
                    },
                }
                i = i + 1;
            }
            assert(forall|j: int| 0 <= j < items@.len() ==> #[trigger] pairs_of(items@[j]) is Some);
            assert(lines@.map_values(|l: Vec<Position>| l@) =~= items@.map_values(
                |x: JsonValue| pairs_of(x).unwrap(),
            ));
            Some(lines)
        },
        _ => None,
    }
}

impl GeoJson {
    /// Reads a geometry from a JSON object with a `type` and a `coordinates`
    /// member.
    pub fn from_json(v: &JsonValue) -> (r: Result<GeoJson, GeometryError>)
        ensures
            parsed_view(r) == parse_spec(*v),
    {
        let type_key = String::from_str("type");
        let coordinates_key = String::from_str("coordinates");
        let null = JsonValue::Null;
        let coords = match get_field(v, &coordinates_key) {
            Some(c) => c,
            None => &null,
        };
        let tag = match get_string_field(v, &type_key) {
            Some(t) => t,
            None => return Err(GeometryError::UnrecognizedGeometryType),
        };
        if *tag == String::from_str("Point") {
            match read_pair(coords) {
                Some(p) => Ok(GeoJson::Point(p)),
                None => Err(GeometryError::MalformedCoordinates),
            }
        } else if *tag == String::from_str("LineString") {
            match read_pairs(coords) {
                Some(pts) => Ok(GeoJson::LineString(pts)),
                None => Err(GeometryError::MalformedCoordinates),
            }
        } else if *tag == String::from_str("MultiLineString") {
            match read_lines(coords) {
                Some(lines) => Ok(GeoJson::MultiLineString(lines)),
                None => Err(GeometryError::MalformedCoordinates),
            }
        } else {
            Err(GeometryError::UnrecognizedGeometryType)
        }
    }
}

} // verus!
