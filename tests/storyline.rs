use motiontag_downloader::geometry::{GeoJson, GeometryError};
use motiontag_downloader::json::JsonValue;
use motiontag_downloader::motion_tag::{
    dates_from_body, dates_to_fetch, is_exported_kind, token_from_body, token_request_body,
    StorylineItem,
};
use motiontag_downloader::text::push_decimal;

fn item(geometry: Option<GeoJson>) -> StorylineItem {
    StorylineItem {
        typ: "Track".to_string(),
        started_at: "2024-01-02T08:00:00Z".to_string(),
        finished_at: "2024-01-02T08:30:00Z".to_string(),
        uuid: "abc-123".to_string(),
        length: Some(4200),
        mode: Some("Bicycle".to_string()),
        geometry,
        purpose: None,
    }
}

fn strings(v: &[&str]) -> Vec<String> {
    v.iter().map(|s| s.to_string()).collect()
}

#[test]
fn csv_line_without_geometry() {
    let mut it = item(None);
    it.length = None;
    it.mode = None;
    assert_eq!(
        it.to_csv_line(),
        Ok("abc-123;;Track;2024-01-02T08:00:00Z;;2024-01-02T08:30:00Z;;0;;;;;;;;;;;;;;;;".to_string())
    );
}

#[test]
fn csv_line_with_point_geometry() {
    let g = GeoJson::Point((8.701253455553303f64.to_bits(), 50.10305534503539f64.to_bits()));
    let line = item(Some(g)).to_csv_line().unwrap();
    assert_eq!(
        line,
        "abc-123;;Track;2024-01-02T08:00:00Z;;2024-01-02T08:30:00Z;;4200;;Bicycle;;00000000014021670ab1639dea40490d30eae44d71;;;;;;;;;;;;"
    );
    assert_eq!(line.split(';').count(), StorylineItem::csv_headline().split(';').count());
}

#[test]
fn csv_line_with_unsupported_geometry_fails() {
    let it = item(Some(GeoJson::MultiLineString(vec![])));
    assert_eq!(it.to_csv_line(), Err(GeometryError::UnsupportedGeometry));
}

#[test]
fn csv_headline_has_all_columns() {
    let h = StorylineItem::csv_headline();
    assert!(h.starts_with("id;user_id;type;started_at;"));
    assert!(h.ends_with(";comment_feedback"));
    assert_eq!(h.split(';').count(), 24);
}

#[test]
fn decimal_rendering() {
    for n in [0i64, 7, -7, 1234567, i64::MAX, i64::MIN] {
        let mut s = "x".to_string();
        push_decimal(&mut s, n);
        assert_eq!(s, format!("x{}", n));
    }
}

#[test]
fn token_request_body_places_credentials() {
    assert_eq!(
        token_request_body("alice", "s3cret"),
        "{\"grant_type\":\"password\",\"password\":\"s3cret\",\"username\":\"alice\"}"
    );
}

#[test]
fn token_is_read_from_response() {
    let body = JsonValue::Object(vec![
        ("token_type".to_string(), JsonValue::Str("bearer".to_string())),
        ("access_token".to_string(), JsonValue::Str("tok".to_string())),
    ]);
    assert_eq!(token_from_body(&body), Some("tok".to_string()));
    let missing = JsonValue::Object(vec![("access_token".to_string(), JsonValue::Null)]);
    assert_eq!(token_from_body(&missing), None);
}

#[test]
fn dates_are_read_in_order() {
    let day = |v: JsonValue| JsonValue::Object(vec![("date".to_string(), v)]);
    let body = JsonValue::Object(vec![(
        "days".to_string(),
        JsonValue::Array(vec![
            day(JsonValue::Str("2024-01-01".to_string())),
            day(JsonValue::Null),
            day(JsonValue::Str("2024-01-03".to_string())),
        ]),
    )]);
    assert_eq!(dates_from_body(&body), Some(strings(&["2024-01-01", "", "2024-01-03"])));
    let no_date = JsonValue::Object(vec![(
        "days".to_string(),
        JsonValue::Array(vec![JsonValue::Object(vec![])]),
    )]);
    assert_eq!(dates_from_body(&no_date), None);
    assert_eq!(dates_from_body(&JsonValue::Object(vec![])), None);
}

#[test]
fn dates_between_bounds() {
    let dates = strings(&["d1", "d2", "d3", "d4", "d5"]);
    assert_eq!(dates_to_fetch(&dates, &None, &None), dates);
    assert_eq!(
        dates_to_fetch(&dates, &Some("d2".to_string()), &Some("d4".to_string())),
        strings(&["d2", "d3", "d4"])
    );
    assert_eq!(dates_to_fetch(&dates, &Some("d4".to_string()), &None), strings(&["d4", "d5"]));
    assert_eq!(dates_to_fetch(&dates, &None, &Some("d1".to_string())), strings(&["d1"]));
    assert_eq!(
        dates_to_fetch(&dates, &Some("d3".to_string()), &Some("d1".to_string())),
        strings(&["d3", "d4", "d5"])
    );
    assert_eq!(dates_to_fetch(&dates, &Some("d9".to_string()), &None), strings(&[]));
}

#[test]
fn only_tracks_and_stays_are_exported() {
    assert!(is_exported_kind(&"Track".to_string()));
    assert!(is_exported_kind(&"Stay".to_string()));
    assert!(!is_exported_kind(&"Gap".to_string()));
    assert!(!is_exported_kind(&"track".to_string()));
}
