//! Storyline rows for the CSV export, and the service's request and
//! response bodies.
use vstd::prelude::*;

use crate::geometry::{GeoJson, GeometryError};
use crate::json::{field, get_field, get_string_field, string_field, JsonValue};
use crate::text::{decimal_of, push_decimal};
use crate::wkb::{encodable, geojson_to_wkb, wkb_hex_spec};

verus! {

/// One entry of a day's storyline: a track or a stay, with its geometry.
#[derive(Debug)]
pub struct StorylineItem {
    pub typ: String,
    pub started_at: String,
    pub finished_at: String,
    pub uuid: String,
    pub length: Option<i64>,
    pub mode: Option<String>,
    pub geometry: Option<GeoJson>,
    pub purpose: Option<String>,
}

/// The text of an optional string; empty where there is none.
pub open spec fn text_or_empty(o: Option<String>) -> Seq<char> {
    match o {
        Some(s) => s@,
        None => Seq::empty(),
    }
}

/// The value of an optional integer; zero where there is none.
pub open spec fn int_or_zero(o: Option<i64>) -> int {
    match o {
        Some(n) => n as int,
        None => 0,
    }
}

/// The CSV row of an item whose geometry column holds `geometry`: its
/// fields in the columns of the header, the others left empty.
pub open spec fn csv_row(item: StorylineItem, geometry: Seq<char>) -> Seq<char> {
    item.uuid@ + ";;"@ + item.typ@ + ";"@ + item.started_at@ + ";;"@ + item.finished_at@ + ";;"@
        + decimal_of(int_or_zero(item.length)) + ";;"@ + text_or_empty(item.mode) + ";"@
        + text_or_empty(item.purpose) + ";"@ + geometry + ";;;;;;;;;;;;"@
}

/// The CSV row of an item, with its geometry encoded; or why the geometry
/// could not be encoded.
pub open spec fn csv_line_spec(item: StorylineItem) -> Result<Seq<char>, GeometryError> {
    match item.geometry {
        None => Ok(csv_row(item, Seq::empty())),
        Some(g) => match wkb_hex_spec(g@) {
            Ok(h) => Ok(csv_row(item, h)),
            Err(e) => Err(e),
        },
    }
}

/// The header of the CSV export.
pub open spec fn csv_header_spec() -> Seq<char> {
    "id;user_id;type;started_at;started_at_timezone;finished_at;finished_at_timezone;length;detected_mode;mode;purpose;geometry;confirmed_at;started_on;misdetected_completely;merged;created_at;updated_at;started_at_in_timezone;finished_at_in_timezone;confirmed_at_in_timezone;created_at_in_timezone;updated_at_in_timezone;comment_feedback"@
}

/// Appends the text of an optional string.
fn push_optional(s: &mut String, o: &Option<String>)
    ensures
        final(s)@ == old(s)@ + text_or_empty(*o),
{
    match o {
        Some(t) => s.append(t.as_str()),
        None => {
            assert(s@ =~= old(s)@ + text_or_empty(*o));
        },
    }
}

impl StorylineItem {
    /// The item as one row of the CSV export, with its geometry as
    /// hexadecimal well-known binary. Fails where the geometry has no
    /// encoding.
    pub fn to_csv_line(&self) -> (r: Result<String, GeometryError>)
        requires
            self.geometry matches Some(g) ==> encodable(g@),
        ensures
            match r {
                Ok(s) => csv_line_spec(*self) == Ok::<Seq<char>, GeometryError>(s@),
                Err(e) => csv_line_spec(*self) == Err::<Seq<char>, GeometryError>(e),
            },
    {
        let geometry = match &self.geometry {
            Some(g) => match geojson_to_wkb(g) {
                Ok(h) => h,
                Err(e) => return Err(e),
            },
            None => String::new(),
        };
        let length: i64 = match self.length {
            Some(n) => n,
            None => 0,
        };
        let mut line = String::new();
        line.append(self.uuid.as_str());
        line.append(";;");
        line.append(self.typ.as_str());
        line.append(";");
        line.append(self.started_at.as_str());
        line.append(";;");
        line.append(self.finished_at.as_str());
        line.append(";;");
        push_decimal(&mut line, length);
        line.append(";;");
        push_optional(&mut line, &self.mode);
        line.append(";");
        push_optional(&mut line, &self.purpose);
        line.append(";");
        line.append(geometry.as_str());
        line.append(";;;;;;;;;;;;");
        assert(line@ =~= csv_row(*self, geometry@));
        Ok(line)
    }

    /// The header row of the CSV export.
    pub fn csv_headline() -> (r: String)
        ensures
            r@ == csv_header_spec(),
    {
        String::from_str(
            "id;user_id;type;started_at;started_at_timezone;finished_at;finished_at_timezone;length;detected_mode;mode;purpose;geometry;confirmed_at;started_on;misdetected_completely;merged;created_at;updated_at;started_at_in_timezone;finished_at_in_timezone;confirmed_at_in_timezone;created_at_in_timezone;updated_at_in_timezone;comment_feedback",
        )
    }
}

/// The body of a password-grant token request.
pub open spec fn token_request_spec(username: Seq<char>, password: Seq<char>) -> Seq<char> {
    "{\"grant_type\":\"password\",\"password\":\""@ + password + "\",\"username\":\""@ + username
        + "\"}"@
}

/// The JSON body of a request for an access token by user name and
/// password. The two are placed in the body as given.
pub fn token_request_body(username: &str, password: &str) -> (r: String)
    ensures
        r@ == token_request_spec(username@, password@),
{
    let mut body = String::from_str("{\"grant_type\":\"password\",\"password\":\"");
    body.append(password);
    body.append("\",\"username\":\"");
    body.append(username);
    body.append("\"}");
    body
}

/// The access token that a token response carries: its `access_token`
/// member, where that is a string.
pub fn token_from_body(body: &JsonValue) -> (r: Option<String>)
    ensures
        match r {
            Some(t) => string_field(*body, "access_token"@) == Some(t@),
            None => string_field(*body, "access_token"@) is None,
        },
{
    let key = String::from_str("access_token");
    match get_string_field(body, &key) {
        Some(t) => Some(t.clone()),
        None => None,
    }
}

/// The date of one entry of a days response: its `date` member, empty where
/// that is not a string; nothing where the entry has no such member.
pub open spec fn day_date(day: JsonValue) -> Option<Seq<char>> {
    match field(day, "date"@) {
        Some(JsonValue::Str(s)) => Some(s@),
        Some(_) => Some(Seq::empty()),
        None => None,
    }
}

/// The dates of a days response, in order: the `days` member must be an
/// array whose entries all have a date.
pub open spec fn dates_spec(body: JsonValue) -> Option<Seq<Seq<char>>> {
    match field(body, "days"@) {
        Some(JsonValue::Array(days)) => if forall|i: int|
            0 <= i < days@.len() ==> #[trigger] day_date(days@[i]) is Some {
            Some(days@.map_values(|d: JsonValue| day_date(d).unwrap()))
        } else {
            None
        },
        _ => None,
    }
}

/// The views of a sequence of strings.
pub open spec fn texts(v: Seq<String>) -> Seq<Seq<char>> {
    v.map_values(|s: String| s@)
}

/// Reads the date of one entry of a days response.
fn read_day_date(day: &JsonValue) -> (r: Option<String>)
    ensures
        match r {
            Some(d) => day_date(*day) == Some(d@),
            None => day_date(*day) is None,
        },
{
    let key = String::from_str("date");
    match get_field(day, &key) {
        Some(JsonValue::Str(s)) => Some(s.clone()),
        Some(_) => Some(String::new()),
        None => None,
    }
}

/// The dates listed in a days response, in order; nothing where the response
/// does not have that shape.
pub fn dates_from_body(body: &JsonValue) -> (r: Option<Vec<String>>)
    ensures
        match r {
            Some(dates) => dates_spec(*body) == Some(texts(dates@)),
            None => dates_spec(*body) is None,
        },
{
    let key = String::from_str("days");
    let days = match get_field(body, &key) {
        Some(JsonValue::Array(days)) => days,
        _ => return None,
    };
    let mut dates: Vec<String> = Vec::new();
    let mut i: usize = 0;
    while i < days.len()
        invariant
            field(*body, "days"@) == Some(JsonValue::Array(*days)),
            i <= days@.len(),
            dates@.len() == i,
            forall|j: int| 0 <= j < i ==> #[trigger] day_date(days@[j]) == Some(dates@[j]@),
        decreases days@.len() - i,
    {
        match read_day_date(&days[i]) {
            Some(d) => dates.push(d),
            None => {
                assert(day_date(days@[i as int]) is None);
                return None;
            },
        }
        i = i + 1;
    }
    assert(forall|j: int| 0 <= j < days@.len() ==> #[trigger] day_date(days@[j]) is Some);
    assert(texts(dates@) =~= days@.map_values(|d: JsonValue| day_date(d).unwrap()));
    Some(dates)
}

/// The dates whose storylines are exported, from a list of dates in order:
/// from the first date equal to `from` (from the start where `from` is
/// absent) up to and including the first later-or-equal date equal to `to`
/// (to the end where there is none). `reached` says whether the start has
/// already been passed.
pub open spec fn selected_dates(
    dates: Seq<Seq<char>>,
    from: Option<Seq<char>>,
    to: Option<Seq<char>>,
    reached: bool,
) -> Seq<Seq<char>>
    decreases dates.len(),
{
    if dates.len() == 0 {
        Seq::empty()
    } else if !(reached || from == Some(dates[0])) {
        selected_dates(dates.drop_first(), from, to, false)
    } else if to == Some(dates[0]) {
        seq![dates[0]]
    } else {
        seq![dates[0]] + selected_dates(dates.drop_first(), from, to, true)
    }
}

/// The view of an optional string.
pub open spec fn opt_view(o: Option<String>) -> Option<Seq<char>> {
    match o {
        Some(s) => Some(s@),
        None => None,
    }
}

/// Whether `o` holds a string equal to `s`.
fn equals_opt(o: &Option<String>, s: &String) -> (r: bool)
    ensures
        r == (opt_view(*o) == Some(s@)),
{
    match o {
        Some(t) => *t == *s,
        None => false,
    }
}

/// The dates, in order, whose storylines an export between `from` and `to`
/// (both inclusive, either open) fetches.
pub fn dates_to_fetch(dates: &Vec<String>, from: &Option<String>, to: &Option<String>) -> (r: Vec<
    String,
>)
    ensures
        texts(r@) == selected_dates(texts(dates@), opt_view(*from), opt_view(*to), from is None),
{
    let ghost all = texts(dates@);
    let mut out: Vec<String> = Vec::new();
    let mut reached = match from {
        Some(_) => false,
        None => true,
    };
    let mut i: usize = 0;
    assert(all.subrange(0, all.len() as int) =~= all);
    assert(texts(out@) + selected_dates(all, opt_view(*from), opt_view(*to), reached) =~= selected_dates(all, opt_view(*from), opt_view(*to), reached));
    while i < dates.len()
        invariant
            i <= dates@.len(),
            all == texts(dates@),
            selected_dates(all, opt_view(*from), opt_view(*to), from is None) == texts(out@)
                + selected_dates(all.subrange(i as int, all.len() as int), opt_view(*from), opt_view(*to), reached),
        decreases dates@.len() - i,
    {
        let ghost rest = all.subrange(i as int, all.len() as int);
        assert(rest[0] == dates@[i as int]@);
        assert(rest.drop_first() =~= all.subrange(i + 1, all.len() as int));
        let ghost prev = out@;
        let ghost tail = selected_dates(
            all.subrange(i + 1, all.len() as int),
            opt_view(*from),
            opt_view(*to),
            true,
        );
        if equals_opt(from, &dates[i]) {
            reached = true;
        }
        if reached {
            out.push(dates[i].clone());
            assert(texts(out@) =~= texts(prev) + seq![rest[0]]);
            if equals_opt(to, &dates[i]) {
                return out;
            }
            assert(texts(prev) + (seq![rest[0]] + tail) =~= texts(out@) + tail);
        }
        i = i + 1;
    }
    out
}

/// Whether a storyline item of kind `typ` belongs in the export: tracks and
/// stays do.
pub fn is_exported_kind(typ: &String) -> (r: bool)
    ensures
        r == (typ@ == "Track"@ || typ@ == "Stay"@),
{
    *typ == String::from_str("Track") || *typ == String::from_str("Stay")
}

} // verus!
