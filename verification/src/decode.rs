//! The response decoder: deciding what a raw body means.
//!
//! A body is first sniffed for an application-level error (the first line
//! holding `error_code`), then parsed as JSON, and finally read strictly
//! into the expected shape: either every declared field is present with
//! the right type, or the decode fails — there is no partial decoding.

use vstd::prelude::*;

use crate::errors::{Error, ErrorKind};
use crate::json::{
    get_bool, get_isize, get_opt_isize, get_opt_string, get_string, get_usize, json_parse, lookup,
    obj_fields, parse_json, spec_decode_seq, spec_get_bool, spec_get_isize, spec_get_opt_isize,
    spec_get_opt_string, spec_get_string, spec_get_usize, spec_lookup, spec_obj_fields, JsonValue,
};
use crate::response::{
    Category, CategoryItem, Observation, ReleaseDateItem, ReleaseItem, SeriesItem, SeriesTags,
    SourceItem, Tag, TagItem,
};
use crate::text::{spec_contains, str_contains};
use vstd::string::StrSliceExecFns;

verus! {

/// The length of the first line of `s`: the characters before the first
/// newline, or all of `s` when it has none.
pub open spec fn spec_line_len(s: Seq<char>) -> int
    decreases s.len(),
{
    if s.len() == 0 {
        0
    } else if s[0] == '\n' {
        0
    } else {
        1 + spec_line_len(s.drop_first())
    }
}

/// The first line of `s`.
pub open spec fn spec_first_line(s: Seq<char>) -> Seq<char> {
    s.take(spec_line_len(s))
}

/// True when the body encodes an application-level error: its first line
/// holds the literal `error_code`.  This is the cheap sniff the decoder
/// runs before any JSON parsing.
pub open spec fn spec_is_api_error(body: Seq<char>) -> bool {
    spec_contains(spec_first_line(body), "error_code"@)
}

proof fn lemma_line_len_bounds(s: Seq<char>)
    ensures
        0 <= spec_line_len(s) <= s.len(),
    decreases s.len(),
{
    if s.len() != 0 && s[0] != '\n' {
        lemma_line_len_bounds(s.drop_first());
    }
}

proof fn lemma_line_len_at(s: Seq<char>, i: int)
    requires
        0 <= i <= s.len(),
        forall|j: int| 0 <= j < i ==> s[j] != '\n',
    ensures
        i == s.len() ==> spec_line_len(s) == s.len(),
        i < s.len() && s[i] == '\n' ==> spec_line_len(s) == i,
    decreases i,
{
    if i == 0 {
    } else {
        assert(s[0] != '\n');
        let t = s.drop_first();
        assert(forall|j: int| 0 <= j < i - 1 ==> t[j] != '\n');
        lemma_line_len_at(t, i - 1);
    }
}

/// Sniffs the body for an application-level error.
pub fn is_api_error_body(body: &str) -> (b: bool)
    ensures
        b == spec_is_api_error(body@),
{
    let n = body.unicode_len();
    let mut i: usize = 0;
    while i < n && body.get_char(i) != '\n'
        invariant
            i <= n,
            n == body@.len(),
            forall|j: int| 0 <= j < i ==> body@[j] != '\n',
        decreases n - i,
    {
        i = i + 1;
    }
    proof {
        lemma_line_len_at(body@, i as int);
        lemma_line_len_bounds(body@);
    }
    let line = body.substring_char(0, i);
    proof {
        assert(line@ == spec_first_line(body@));
    }
    str_contains(line, "error_code")
}

/// What reading a raw body up to the parsed tree yields: an API error
/// when the first line holds `error_code`, a decode error carrying the
/// body when the text is not JSON, and the parsed tree otherwise.
pub open spec fn spec_body_gate(body: Seq<char>, r: Result<JsonValue, Error>) -> bool {
    if spec_is_api_error(body) {
        r matches Err(e) && e.spec_kind() matches ErrorKind::Api(b) && b@ == body
    } else {
        match json_parse(body) {
            Some(v) => r matches Ok(w) && w == v,
            None => r matches Err(e) && e.spec_kind() matches ErrorKind::Decode(_m, b) && b@
                == body,
        }
    }
}

/// Runs the error sniff and the JSON parse over a raw body.
pub fn decode_body(body: &str) -> (r: Result<JsonValue, Error>)
    ensures
        spec_body_gate(body@, r),
{
    if is_api_error_body(body) {
        return Err(Error::api(body.to_owned()));
    }
    match parse_json(body) {
        Ok(v) => Ok(v),
        Err(m) => Err(Error::decode(m, body.to_owned())),
    }
}

/// A value that can be read strictly out of one JSON node.
pub trait JsonDecodable: Sized {
    /// What decoding yields: `Some` exactly on nodes of the right shape.
    spec fn spec_decode(v: JsonValue) -> Option<Self>;

    /// Decodes one node.
    fn decode(v: &JsonValue) -> (r: Option<Self>)
        ensures
            r == Self::spec_decode(*v),
    ;
}

/// Decodes every element of an array, or fails if any element fails.
pub fn decode_vec<T: JsonDecodable>(items: &Vec<JsonValue>) -> (r: Option<Vec<T>>)
    ensures
        match r {
            Some(out) => spec_decode_seq(items@, |x: JsonValue| T::spec_decode(x)) == Some(out@),
            None => spec_decode_seq(items@, |x: JsonValue| T::spec_decode(x)) is None,
        },
{
    let ghost f = |x: JsonValue| T::spec_decode(x);
    let mut out: Vec<T> = Vec::new();
    let mut i: usize = 0;
    while i < items.len()
        invariant
            i <= items@.len(),
            out@.len() == i,
            f == (|x: JsonValue| T::spec_decode(x)),
            forall|j: int| 0 <= j < i ==> (#[trigger] f(items@[j])) is Some,
            forall|j: int| 0 <= j < i ==> out@[j] == f(items@[j]).unwrap(),
        decreases items@.len() - i,
    {
        match T::decode(&items[i]) {
            Some(t) => {
                out.push(t);
            },
            None => {
                proof {
                    assert(f(items@[i as int]) is None);
                }
                return None;
            },
        }
        i = i + 1;
    }
    proof {
        assert(out@ =~= Seq::new(items@.len(), |j: int| f(items@[j]).unwrap()));
    }
    Some(out)
}

/// All the fields a `Category` needs, with the right types.
pub open spec fn spec_category_ok(f: Seq<(String, JsonValue)>) -> bool {
    &&& spec_get_usize(f, "id"@) is Some
    &&& spec_get_string(f, "name"@) is Some
    &&& spec_get_usize(f, "parent_id"@) is Some
    &&& spec_get_opt_string(f, "notes"@) is Some
}

impl JsonDecodable for Category {
    open spec fn spec_decode(v: JsonValue) -> Option<Category> {
        match spec_obj_fields(v) {
            Some(f) => if spec_category_ok(f) {
                Some(
                    Category {
                        id: spec_get_usize(f, "id"@).unwrap(),
                        name: spec_get_string(f, "name"@).unwrap(),
                        parent_id: spec_get_usize(f, "parent_id"@).unwrap(),
                        notes: spec_get_opt_string(f, "notes"@).unwrap(),
                    },
                )
            } else {
                None
            },
            None => None,
        }
    }

    fn decode(v: &JsonValue) -> (r: Option<Category>) {
        let f = match obj_fields(v) {
            Some(f) => f,
            None => {
                return None;
            },
        };
        let id = match get_usize(f, "id") {
            Some(x) => x,
            None => {
                return None;
            },
        };
        let name = match get_string(f, "name") {
            Some(x) => x,
            None => {
                return None;
            },
        };
        let parent_id = match get_usize(f, "parent_id") {
            Some(x) => x,
            None => {
                return None;
            },
        };
        let notes = match get_opt_string(f, "notes") {
            Some(x) => x,
            None => {
                return None;
            },
        };
        Some(Category { id, name, parent_id, notes })
    }
}

/// All the fields a `Tag` needs, with the right types.
pub open spec fn spec_tag_ok(f: Seq<(String, JsonValue)>) -> bool {
    &&& spec_get_string(f, "name"@) is Some
    &&& spec_get_string(f, "group_id"@) is Some
    &&& spec_get_opt_string(f, "notes"@) is Some
    &&& spec_get_string(f, "created"@) is Some
    &&& spec_get_isize(f, "popularity"@) is Some
    &&& spec_get_isize(f, "series_count"@) is Some
}

impl JsonDecodable for Tag {
    open spec fn spec_decode(v: JsonValue) -> Option<Tag> {
        match spec_obj_fields(v) {
            Some(f) => if spec_tag_ok(f) {
                Some(
                    Tag {
                        name: spec_get_string(f, "name"@).unwrap(),
                        group_id: spec_get_string(f, "group_id"@).unwrap(),
                        notes: spec_get_opt_string(f, "notes"@).unwrap(),
                        created: spec_get_string(f, "created"@).unwrap(),
                        popularity: spec_get_isize(f, "popularity"@).unwrap(),
                        series_count: spec_get_isize(f, "series_count"@).unwrap(),
                    },
                )
            } else {
                None
            },
            None => None,
        }
    }

    fn decode(v: &JsonValue) -> (r: Option<Tag>) {
        let f = match obj_fields(v) {
            Some(f) => f,
            None => {
                return None;
            },
        };
        let name = match get_string(f, "name") {
            Some(x) => x,
            None => {
                return None;
            },
        };
        let group_id = match get_string(f, "group_id") {
            Some(x) => x,
            None => {
                return None;
            },
        };
        let notes = match get_opt_string(f, "notes") {
            Some(x) => x,
            None => {
                return None;
            },
        };
        let created = match get_string(f, "created") {
            Some(x) => x,
            None => {
                return None;
            },
        };
        let popularity = match get_isize(f, "popularity") {
            Some(x) => x,
            None => {
                return None;
            },
        };
        let series_count = match get_isize(f, "series_count") {
            Some(x) => x,
            None => {
                return None;
            },
        };
        Some(Tag { name, group_id, notes, created, popularity, series_count })
    }
}

/// All the fields a `TagItem` needs, with the right types.
pub open spec fn spec_tag_item_ok(f: Seq<(String, JsonValue)>) -> bool {
    &&& spec_get_string(f, "name"@) is Some
    &&& spec_get_string(f, "group_id"@) is Some
    &&& spec_get_opt_string(f, "notes"@) is Some
    &&& spec_get_string(f, "created"@) is Some
    &&& spec_get_isize(f, "popularity"@) is Some
    &&& spec_get_isize(f, "series_count"@) is Some
}

impl JsonDecodable for TagItem {
    open spec fn spec_decode(v: JsonValue) -> Option<TagItem> {
        match spec_obj_fields(v) {
            Some(f) => if spec_tag_item_ok(f) {
                Some(
                    TagItem {
                        name: spec_get_string(f, "name"@).unwrap(),
                        group_id: spec_get_string(f, "group_id"@).unwrap(),
                        notes: spec_get_opt_string(f, "notes"@).unwrap(),
                        created: spec_get_string(f, "created"@).unwrap(),
                        popularity: spec_get_isize(f, "popularity"@).unwrap(),
                        series_count: spec_get_isize(f, "series_count"@).unwrap(),
                    },
                )
            } else {
                None
            },
            None => None,
        }
    }

    fn decode(v: &JsonValue) -> (r: Option<TagItem>) {
        let f = match obj_fields(v) {
            Some(f) => f,
            None => {
                return None;
            },
        };
        let name = match get_string(f, "name") {
            Some(x) => x,
            None => {
                return None;
            },
        };
        let group_id = match get_string(f, "group_id") {
            Some(x) => x,
            None => {
                return None;
            },
        };
        let notes = match get_opt_string(f, "notes") {
            Some(x) => x,
            None => {
                return None;
            },
        };
        let created = match get_string(f, "created") {
            Some(x) => x,
            None => {
                return None;
            },
        };
        let popularity = match get_isize(f, "popularity") {
            Some(x) => x,
            None => {
                return None;
            },
        };
        let series_count = match get_isize(f, "series_count") {
            Some(x) => x,
            None => {
                return None;
            },
        };
        Some(TagItem { name, group_id, notes, created, popularity, series_count })
    }
}

/// All the fields a `ReleaseItem` needs, with the right types.
pub open spec fn spec_release_item_ok(f: Seq<(String, JsonValue)>) -> bool {
    &&& spec_get_isize(f, "id"@) is Some
    &&& spec_get_string(f, "realtime_start"@) is Some
    &&& spec_get_string(f, "realtime_end"@) is Some
    &&& spec_get_string(f, "name"@) is Some
    &&& spec_get_bool(f, "press_release"@) is Some
    &&& spec_get_opt_string(f, "link"@) is Some
}

impl JsonDecodable for ReleaseItem {
    open spec fn spec_decode(v: JsonValue) -> Option<ReleaseItem> {
        match spec_obj_fields(v) {
            Some(f) => if spec_release_item_ok(f) {
                Some(
                    ReleaseItem {
                        id: spec_get_isize(f, "id"@).unwrap(),
                        realtime_start: spec_get_string(f, "realtime_start"@).unwrap(),
                        realtime_end: spec_get_string(f, "realtime_end"@).unwrap(),
                        name: spec_get_string(f, "name"@).unwrap(),
                        press_release: spec_get_bool(f, "press_release"@).unwrap(),
                        link: spec_get_opt_string(f, "link"@).unwrap(),
                    },
                )
            } else {
                None
            },
            None => None,
        }
    }

    fn decode(v: &JsonValue) -> (r: Option<ReleaseItem>) {
        let f = match obj_fields(v) {
            Some(f) => f,
            None => {
                return None;
            },
        };
        let id = match get_isize(f, "id") {
            Some(x) => x,
            None => {
                return None;
            },
        };
        let realtime_start = match get_string(f, "realtime_start") {
            Some(x) => x,
            None => {
                return None;
            },
        };
        let realtime_end = match get_string(f, "realtime_end") {
            Some(x) => x,
            None => {
                return None;
            },
        };
        let name = match get_string(f, "name") {
            Some(x) => x,
            None => {
                return None;
            },
        };
        let press_release = match get_bool(f, "press_release") {
            Some(x) => x,
            None => {
                return None;
            },
        };
        let link = match get_opt_string(f, "link") {
            Some(x) => x,
            None => {
                return None;
            },
        };
        Some(ReleaseItem { id, realtime_start, realtime_end, name, press_release, link })
    }
}

/// All the fields a `ReleaseDateItem` needs, with the right types.
pub open spec fn spec_release_date_item_ok(f: Seq<(String, JsonValue)>) -> bool {
    &&& spec_get_isize(f, "release_id"@) is Some
    &&& spec_get_string(f, "date"@) is Some
}

impl JsonDecodable for ReleaseDateItem {
    open spec fn spec_decode(v: JsonValue) -> Option<ReleaseDateItem> {
        match spec_obj_fields(v) {
            Some(f) => if spec_release_date_item_ok(f) {
                Some(
                    ReleaseDateItem {
                        release_id: spec_get_isize(f, "release_id"@).unwrap(),
                        date: spec_get_string(f, "date"@).unwrap(),
                    },
                )
            } else {
                None
            },
            None => None,
        }
    }

    fn decode(v: &JsonValue) -> (r: Option<ReleaseDateItem>) {
        let f = match obj_fields(v) {
            Some(f) => f,
            None => {
                return None;
            },
        };
        let release_id = match get_isize(f, "release_id") {
            Some(x) => x,
            None => {
                return None;
            },
        };
        let date = match get_string(f, "date") {
            Some(x) => x,
            None => {
                return None;
            },
        };
        Some(ReleaseDateItem { release_id, date })
    }
}

/// All the fields a `SourceItem` needs, with the right types.
pub open spec fn spec_source_item_ok(f: Seq<(String, JsonValue)>) -> bool {
    &&& spec_get_isize(f, "id"@) is Some
    &&& spec_get_string(f, "realtime_start"@) is Some
    &&& spec_get_string(f, "realtime_end"@) is Some
    &&& spec_get_string(f, "name"@) is Some
    &&& spec_get_opt_string(f, "link"@) is Some
}

impl JsonDecodable for SourceItem {
    open spec fn spec_decode(v: JsonValue) -> Option<SourceItem> {
        match spec_obj_fields(v) {
            Some(f) => if spec_source_item_ok(f) {
                Some(
                    SourceItem {
                        id: spec_get_isize(f, "id"@).unwrap(),
                        realtime_start: spec_get_string(f, "realtime_start"@).unwrap(),
                        realtime_end: spec_get_string(f, "realtime_end"@).unwrap(),
                        name: spec_get_string(f, "name"@).unwrap(),
                        link: spec_get_opt_string(f, "link"@).unwrap(),
                    },
                )
            } else {
                None
            },
            None => None,
        }
    }

    fn decode(v: &JsonValue) -> (r: Option<SourceItem>) {
        let f = match obj_fields(v) {
            Some(f) => f,
            None => {
                return None;
            },
        };
        let id = match get_isize(f, "id") {
            Some(x) => x,
            None => {
                return None;
            },
        };
        let realtime_start = match get_string(f, "realtime_start") {
            Some(x) => x,
            None => {
                return None;
            },
        };
        let realtime_end = match get_string(f, "realtime_end") {
            Some(x) => x,
            None => {
                return None;
            },
        };
        let name = match get_string(f, "name") {
            Some(x) => x,
            None => {
                return None;
            },
        };
        let link = match get_opt_string(f, "link") {
            Some(x) => x,
            None => {
                return None;
            },
        };
        Some(SourceItem { id, realtime_start, realtime_end, name, link })
    }
}

/// All the fields an `Observation` needs, with the right types.
pub open spec fn spec_observation_ok(f: Seq<(String, JsonValue)>) -> bool {
    &&& spec_get_string(f, "realtime_start"@) is Some
    &&& spec_get_string(f, "realtime_end"@) is Some
    &&& spec_get_string(f, "date"@) is Some
    &&& spec_get_string(f, "value"@) is Some
}

impl JsonDecodable for Observation {
    open spec fn spec_decode(v: JsonValue) -> Option<Observation> {
        match spec_obj_fields(v) {
            Some(f) => if spec_observation_ok(f) {
                Some(
                    Observation {
                        realtime_start: spec_get_string(f, "realtime_start"@).unwrap(),
                        realtime_end: spec_get_string(f, "realtime_end"@).unwrap(),
                        date: spec_get_string(f, "date"@).unwrap(),
                        value: spec_get_string(f, "value"@).unwrap(),
                    },
                )
            } else {
                None
            },
            None => None,
        }
    }

    fn decode(v: &JsonValue) -> (r: Option<Observation>) {
        let f = match obj_fields(v) {
            Some(f) => f,
            None => {
                return None;
            },
        };
        let realtime_start = match get_string(f, "realtime_start") {
            Some(x) => x,
            None => {
                return None;
            },
        };
        let realtime_end = match get_string(f, "realtime_end") {
            Some(x) => x,
            None => {
                return None;
            },
        };
        let date = match get_string(f, "date") {
            Some(x) => x,
            None => {
                return None;
            },
        };
        let value = match get_string(f, "value") {
            Some(x) => x,
            None => {
                return None;
            },
        };
        Some(Observation { realtime_start, realtime_end, date, value })
    }
}

/// All the fields a `CategoryItem` needs, with the right types.
pub open spec fn spec_category_item_ok(f: Seq<(String, JsonValue)>) -> bool {
    &&& spec_get_string(f, "id"@) is Some
    &&& spec_get_string(f, "name"@) is Some
    &&& spec_get_isize(f, "parent_id"@) is Some
}

impl JsonDecodable for CategoryItem {
    open spec fn spec_decode(v: JsonValue) -> Option<CategoryItem> {
        match spec_obj_fields(v) {
            Some(f) => if spec_category_item_ok(f) {
                Some(
                    CategoryItem {
                        id: spec_get_string(f, "id"@).unwrap(),
                        name: spec_get_string(f, "name"@).unwrap(),
                        parent_id: spec_get_isize(f, "parent_id"@).unwrap(),
                    },
                )
            } else {
                None
            },
            None => None,
        }
    }

    fn decode(v: &JsonValue) -> (r: Option<CategoryItem>) {
        let f = match obj_fields(v) {
            Some(f) => f,
            None => {
                return None;
            },
        };
        let id = match get_string(f, "id") {
            Some(x) => x,
            None => {
                return None;
            },
        };
        let name = match get_string(f, "name") {
            Some(x) => x,
            None => {
                return None;
            },
        };
        let parent_id = match get_isize(f, "parent_id") {
            Some(x) => x,
            None => {
                return None;
            },
        };
        Some(CategoryItem { id, name, parent_id })
    }
}

impl JsonDecodable for String {
    /// A bare JSON string decodes to itself; used for date lists.
    open spec fn spec_decode(v: JsonValue) -> Option<String> {
        match v {
            JsonValue::Str(s) => Some(s),
            _ => None,
        }
    }

    fn decode(v: &JsonValue) -> (r: Option<String>) {
        match v {
            JsonValue::Str(s) => Some(s.clone()),
            _ => None,
        }
    }
}

/// All the fields a `SeriesItem` needs, with the right types.
pub open spec fn spec_series_item_ok(f: Seq<(String, JsonValue)>) -> bool {
    &&& spec_get_string(f, "id"@) is Some
    &&& spec_get_string(f, "realtime_start"@) is Some
    &&& spec_get_string(f, "realtime_end"@) is Some
    &&& spec_get_string(f, "title"@) is Some
    &&& spec_get_string(f, "observation_start"@) is Some
    &&& spec_get_string(f, "observation_end"@) is Some
    &&& spec_get_string(f, "frequency"@) is Some
    &&& spec_get_string(f, "units"@) is Some
    &&& spec_get_string(f, "units_short"@) is Some
    &&& spec_get_string(f, "seasonal_adjustment"@) is Some
    &&& spec_get_string(f, "seasonal_adjustment_short"@) is Some
    &&& spec_get_string(f, "last_updated"@) is Some
    &&& spec_get_isize(f, "popularity"@) is Some
    &&& spec_get_opt_isize(f, "group_popularity"@) is Some
    &&& spec_get_opt_string(f, "notes"@) is Some
}

impl JsonDecodable for SeriesItem {
    open spec fn spec_decode(v: JsonValue) -> Option<SeriesItem> {
        match spec_obj_fields(v) {
            Some(f) => if spec_series_item_ok(f) {
                Some(
                    SeriesItem {
                        id: spec_get_string(f, "id"@).unwrap(),
                        realtime_start: spec_get_string(f, "realtime_start"@).unwrap(),
                        realtime_end: spec_get_string(f, "realtime_end"@).unwrap(),
                        title: spec_get_string(f, "title"@).unwrap(),
                        observation_start: spec_get_string(f, "observation_start"@).unwrap(),
                        observation_end: spec_get_string(f, "observation_end"@).unwrap(),
                        frequency: spec_get_string(f, "frequency"@).unwrap(),
                        units: spec_get_string(f, "units"@).unwrap(),
                        units_short: spec_get_string(f, "units_short"@).unwrap(),
                        seasonal_adjustment: spec_get_string(f, "seasonal_adjustment"@).unwrap(),
                        seasonal_adjustment_short: spec_get_string(
                            f,
                            "seasonal_adjustment_short"@,
                        ).unwrap(),
                        last_updated: spec_get_string(f, "last_updated"@).unwrap(),
                        popularity: spec_get_isize(f, "popularity"@).unwrap(),
                        group_popularity: spec_get_opt_isize(f, "group_popularity"@).unwrap(),
                        notes: spec_get_opt_string(f, "notes"@).unwrap(),
                    },
                )
            } else {
                None
            },
            None => None,
        }
    }

    fn decode(v: &JsonValue) -> (r: Option<SeriesItem>) {
        let f = match obj_fields(v) {
            Some(f) => f,
            None => {
                return None;
            },
        };
        let id = match get_string(f, "id") {
            Some(x) => x,
            None => {
                return None;
            },
        };
        let realtime_start = match get_string(f, "realtime_start") {
            Some(x) => x,
            None => {
                return None;
            },
        };
        let realtime_end = match get_string(f, "realtime_end") {
            Some(x) => x,
            None => {
                return None;
            },
        };
        let title = match get_string(f, "title") {
            Some(x) => x,
            None => {
                return None;
            },
        };
        let observation_start = match get_string(f, "observation_start") {
            Some(x) => x,
            None => {
                return None;
            },
        };
        let observation_end = match get_string(f, "observation_end") {
            Some(x) => x,
            None => {
                return None;
            },
        };
        let frequency = match get_string(f, "frequency") {
            Some(x) => x,
            None => {
                return None;
            },
        };
        let units = match get_string(f, "units") {
            Some(x) => x,
            None => {
                return None;
            },
        };
        let units_short = match get_string(f, "units_short") {
            Some(x) => x,
            None => {
                return None;
            },
        };
        let seasonal_adjustment = match get_string(f, "seasonal_adjustment") {
            Some(x) => x,
            None => {
                return None;
            },
        };
        let seasonal_adjustment_short = match get_string(f, "seasonal_adjustment_short") {
            Some(x) => x,
            None => {
                return None;
            },
        };
        let last_updated = match get_string(f, "last_updated") {
            Some(x) => x,
            None => {
                return None;
            },
        };
        let popularity = match get_isize(f, "popularity") {
            Some(x) => x,
            None => {
                return None;
            },
        };
        let group_popularity = match get_opt_isize(f, "group_popularity") {
            Some(x) => x,
            None => {
                return None;
            },
        };
        let notes = match get_opt_string(f, "notes") {
            Some(x) => x,
            None => {
                return None;
            },
        };
        Some(
            SeriesItem {
                id,
                realtime_start,
                realtime_end,
                title,
                observation_start,
                observation_end,
                frequency,
                units,
                units_short,
                seasonal_adjustment,
                seasonal_adjustment_short,
                last_updated,
                popularity,
                group_popularity,
                notes,
            },
        )
    }
}

/// The seven fields every paginated envelope carries.
pub open spec fn spec_envelope_ok(f: Seq<(String, JsonValue)>) -> bool {
    &&& spec_get_string(f, "realtime_start"@) is Some
    &&& spec_get_string(f, "realtime_end"@) is Some
    &&& spec_get_string(f, "order_by"@) is Some
    &&& spec_get_string(f, "sort_order"@) is Some
    &&& spec_get_isize(f, "count"@) is Some
    &&& spec_get_isize(f, "offset"@) is Some
    &&& spec_get_isize(f, "limit"@) is Some
}

/// Reads the seven envelope fields, in declaration order.
pub fn get_envelope(f: &Vec<(String, JsonValue)>) -> (r: Option<
    (String, String, String, String, isize, isize, isize),
>)
    ensures
        r is Some <==> spec_envelope_ok(f@),
        r matches Some(h) ==> {
            &&& h.0 == spec_get_string(f@, "realtime_start"@).unwrap()
            &&& h.1 == spec_get_string(f@, "realtime_end"@).unwrap()
            &&& h.2 == spec_get_string(f@, "order_by"@).unwrap()
            &&& h.3 == spec_get_string(f@, "sort_order"@).unwrap()
            &&& h.4 == spec_get_isize(f@, "count"@).unwrap()
            &&& h.5 == spec_get_isize(f@, "offset"@).unwrap()
            &&& h.6 == spec_get_isize(f@, "limit"@).unwrap()
        },
{
    let realtime_start = match get_string(f, "realtime_start") {
        Some(x) => x,
        None => {
            return None;
        },
    };
    let realtime_end = match get_string(f, "realtime_end") {
        Some(x) => x,
        None => {
            return None;
        },
    };
    let order_by = match get_string(f, "order_by") {
        Some(x) => x,
        None => {
            return None;
        },
    };
    let sort_order = match get_string(f, "sort_order") {
        Some(x) => x,
        None => {
            return None;
        },
    };
    let count = match get_isize(f, "count") {
        Some(x) => x,
        None => {
            return None;
        },
    };
    let offset = match get_isize(f, "offset") {
        Some(x) => x,
        None => {
            return None;
        },
    };
    let limit = match get_isize(f, "limit") {
        Some(x) => x,
        None => {
            return None;
        },
    };
    Some((realtime_start, realtime_end, order_by, sort_order, count, offset, limit))
}


/// The scalar fields a `ReleaseElement` needs, with the right types.
/// The wire name of the `ty` field is `type`.
pub open spec fn spec_element_scalars_ok(f: Seq<(String, JsonValue)>) -> bool {
    &&& spec_get_isize(f, "element_id"@) is Some
    &&& spec_get_string(f, "release_id"@) is Some
    &&& spec_get_string(f, "series_id"@) is Some
    &&& spec_get_string(f, "parent_id"@) is Some
    &&& spec_get_string(f, "line"@) is Some
    &&& spec_get_string(f, "type"@) is Some
    &&& spec_get_string(f, "name"@) is Some
    &&& spec_get_string(f, "level"@) is Some
}

/// A successful lookup finds one of the fields.
proof fn lemma_lookup_in_fields(f: Seq<(String, JsonValue)>, key: Seq<char>)
    requires
        spec_lookup(f, key) is Some,
    ensures
        exists|k: int|
            0 <= k < f.len() && #[trigger] f[k].1 == spec_lookup(f, key).unwrap(),
    decreases f.len(),
{
    if f.len() > 0 {
        if f[0].0@ == key {
            assert(f[0].1 == spec_lookup(f, key).unwrap());
        } else {
            lemma_lookup_in_fields(f.drop_first(), key);
            let k = choose|k: int|
                0 <= k < f.drop_first().len() && #[trigger] f.drop_first()[k].1 == spec_lookup(
                    f.drop_first(),
                    key,
                ).unwrap();
            assert(f[k + 1].1 == spec_lookup(f, key).unwrap());
        }
    }
}

/// The children array of an element node sits strictly below the node.
proof fn lemma_children_decrease(v: JsonValue, cv: Vec<JsonValue>)
    requires
        spec_obj_fields(v) matches Some(f) && spec_lookup(f, "children"@) == Some(
            JsonValue::Arr(cv),
        ),
    ensures
        decreases_to!(v => cv),
{
    broadcast use vstd::std_specs::vec::axiom_vec_index_decreases;

    let fields = v->Obj_0;
    lemma_lookup_in_fields(fields@, "children"@);
    let k = choose|k: int|
        0 <= k < fields@.len() && #[trigger] fields@[k].1 == spec_lookup(
            fields@,
            "children"@,
        ).unwrap();
    assert(decreases_to!(v => fields));
    assert(decreases_to!(fields => fields@[k]));
    assert(decreases_to!(fields@[k] => fields@[k].1));
    assert(fields@[k].1 == JsonValue::Arr(cv));
    let arr = fields@[k].1;
    assert(decreases_to!(arr => arr->Arr_0));
    assert(arr->Arr_0 == cv);
}

/// True when the node is a well-formed element: all scalar fields
/// present, and every child in its `children` array well-formed in turn.
pub open spec fn spec_element_ok(v: JsonValue) -> bool
    decreases v, 1int,
    via spec_element_ok_decreases
{
    spec_obj_fields(v) matches Some(f) && {
        &&& spec_element_scalars_ok(f)
        &&& spec_lookup(f, "children"@) matches Some(JsonValue::Arr(cv)) && spec_children_ok(cv)
    }
}

/// True when every node of the array is a well-formed element.
pub open spec fn spec_children_ok(cv: Vec<JsonValue>) -> bool
    decreases cv, 0int,
    via spec_children_ok_decreases
{
    forall|i: int| 0 <= i < cv@.len() ==> spec_element_ok(#[trigger] cv@[i])
}

#[via_fn]
proof fn spec_element_ok_decreases(v: JsonValue) {
    match spec_obj_fields(v) {
        Some(f) => match spec_lookup(f, "children"@) {
            Some(JsonValue::Arr(cv)) => {
                lemma_children_decrease(v, cv);
            },
            _ => {},
        },
        None => {},
    }
}

#[via_fn]
proof fn spec_children_ok_decreases(cv: Vec<JsonValue>) {
    broadcast use vstd::std_specs::vec::axiom_vec_index_decreases;

    assert forall|i: int| 0 <= i < cv@.len() implies decreases_to!(cv => cv@[i]) by {
        assert(decreases_to!(cv => cv@[i]));
    }
}

/// True when `e` is exactly what the element node decodes to, child by
/// child and in order.
pub open spec fn spec_element_of(v: JsonValue, e: crate::response::ReleaseElement) -> bool
    decreases v, 1int,
    via spec_element_of_decreases
{
    spec_obj_fields(v) matches Some(f) && {
        &&& e.element_id == spec_get_isize(f, "element_id"@).unwrap()
        &&& e.release_id == spec_get_string(f, "release_id"@).unwrap()
        &&& e.series_id == spec_get_string(f, "series_id"@).unwrap()
        &&& e.parent_id == spec_get_string(f, "parent_id"@).unwrap()
        &&& e.line == spec_get_string(f, "line"@).unwrap()
        &&& e.ty == spec_get_string(f, "type"@).unwrap()
        &&& e.name == spec_get_string(f, "name"@).unwrap()
        &&& e.level == spec_get_string(f, "level"@).unwrap()
        &&& spec_lookup(f, "children"@) matches Some(JsonValue::Arr(cv)) && spec_children_of(
            cv,
            e.children,
        )
    }
}

/// True when the decoded children match the array node for node.
pub open spec fn spec_children_of(
    cv: Vec<JsonValue>,
    ch: Vec<crate::response::ReleaseElement>,
) -> bool
    decreases cv, 0int,
    via spec_children_of_decreases
{
    &&& ch@.len() == cv@.len()
    &&& forall|i: int| 0 <= i < cv@.len() ==> spec_element_of(cv@[i], #[trigger] ch@[i])
}

#[via_fn]
proof fn spec_element_of_decreases(v: JsonValue, e: crate::response::ReleaseElement) {
    match spec_obj_fields(v) {
        Some(f) => match spec_lookup(f, "children"@) {
            Some(JsonValue::Arr(cv)) => {
                lemma_children_decrease(v, cv);
            },
            _ => {},
        },
        None => {},
    }
}

#[via_fn]
proof fn spec_children_of_decreases(cv: Vec<JsonValue>, ch: Vec<crate::response::ReleaseElement>) {
    broadcast use vstd::std_specs::vec::axiom_vec_index_decreases;

    assert forall|i: int| 0 <= i < cv@.len() implies decreases_to!(cv => cv@[i]) by {
        assert(decreases_to!(cv => cv@[i]));
    }
}

/// Decodes one element node, children and all.
pub fn decode_element(v: &JsonValue) -> (r: Option<crate::response::ReleaseElement>)
    ensures
        r is Some <==> spec_element_ok(*v),
        r matches Some(e) ==> spec_element_of(*v, e),
    decreases *v,
{
    let f = match obj_fields(v) {
        Some(f) => f,
        None => {
            return None;
        },
    };
    let element_id = match get_isize(f, "element_id") {
        Some(x) => x,
        None => {
            return None;
        },
    };
    let release_id = match get_string(f, "release_id") {
        Some(x) => x,
        None => {
            return None;
        },
    };
    let series_id = match get_string(f, "series_id") {
        Some(x) => x,
        None => {
            return None;
        },
    };
    let parent_id = match get_string(f, "parent_id") {
        Some(x) => x,
        None => {
            return None;
        },
    };
    let line = match get_string(f, "line") {
        Some(x) => x,
        None => {
            return None;
        },
    };
    let ty = match get_string(f, "type") {
        Some(x) => x,
        None => {
            return None;
        },
    };
    let name = match get_string(f, "name") {
        Some(x) => x,
        None => {
            return None;
        },
    };
    let level = match get_string(f, "level") {
        Some(x) => x,
        None => {
            return None;
        },
    };
    let cv = match lookup(f, "children") {
        Some(c) => match c {
            JsonValue::Arr(a) => a,
            _ => {
                return None;
            },
        },
        None => {
            return None;
        },
    };
    let mut children: Vec<crate::response::ReleaseElement> = Vec::new();
    let mut i: usize = 0;
    while i < cv.len()
        invariant
            i <= cv@.len(),
            children@.len() == i,
            spec_obj_fields(*v) matches Some(fs) && spec_lookup(fs, "children"@) == Some(
                JsonValue::Arr(*cv),
            ),
            forall|j: int| 0 <= j < i ==> spec_element_ok(#[trigger] cv@[j]),
            forall|j: int| 0 <= j < i ==> spec_element_of(cv@[j], #[trigger] children@[j]),
        decreases cv@.len() - i,
    {
        proof {
            broadcast use vstd::std_specs::vec::axiom_vec_index_decreases;

            lemma_children_decrease(*v, *cv);
            assert(decreases_to!(*cv => cv@[i as int]));
        }
        match decode_element(&cv[i]) {
            Some(e) => {
                children.push(e);
            },
            None => {
                proof {
                    assert(!spec_element_ok(cv@[i as int]));
                    if spec_element_ok(*v) {
                        assert(spec_children_ok(*cv));
                        assert(spec_element_ok(cv@[i as int]));
                    }
                }
                return None;
            },
        }
        i = i + 1;
    }
    proof {
        assert(spec_children_ok(*cv));
        assert(spec_children_of(*cv, children));
        assert(spec_element_ok(*v));
    }
    Some(
        crate::response::ReleaseElement {
            element_id,
            release_id,
            series_id,
            parent_id,
            line,
            ty,
            name,
            level,
            children,
        },
    )
}


/// True when the node is a well-formed keyed element.
pub open spec fn spec_keyval_ok(v: JsonValue) -> bool {
    spec_obj_fields(v) matches Some(f) && {
        &&& spec_get_isize(f, "key"@) is Some
        &&& spec_lookup(f, "value"@) matches Some(ev) && spec_element_ok(ev)
    }
}

/// True when `kv` is exactly what the keyed element node decodes to.
pub open spec fn spec_keyval_of(v: JsonValue, kv: crate::response::ReleaseKeyVal) -> bool {
    spec_obj_fields(v) matches Some(f) && {
        &&& kv.key == spec_get_isize(f, "key"@).unwrap()
        &&& spec_lookup(f, "value"@) matches Some(ev) && spec_element_of(ev, kv.value)
    }
}

/// Decodes one keyed element node.
pub fn decode_keyval(v: &JsonValue) -> (r: Option<crate::response::ReleaseKeyVal>)
    ensures
        r is Some <==> spec_keyval_ok(*v),
        r matches Some(kv) ==> spec_keyval_of(*v, kv),
{
    let f = match obj_fields(v) {
        Some(f) => f,
        None => {
            return None;
        },
    };
    let key = match get_isize(f, "key") {
        Some(x) => x,
        None => {
            return None;
        },
    };
    let ev = match lookup(f, "value") {
        Some(e) => e,
        None => {
            return None;
        },
    };
    let value = match decode_element(ev) {
        Some(e) => e,
        None => {
            return None;
        },
    };
    Some(crate::response::ReleaseKeyVal { key, value })
}


/// True when every node of the array is a well-formed keyed element.
pub open spec fn spec_keyvals_ok(items: Seq<JsonValue>) -> bool {
    forall|i: int| 0 <= i < items.len() ==> spec_keyval_ok(#[trigger] items[i])
}

/// True when the decoded keyed elements match the array node for node.
pub open spec fn spec_keyvals_of(
    items: Seq<JsonValue>,
    out: Seq<crate::response::ReleaseKeyVal>,
) -> bool {
    &&& out.len() == items.len()
    &&& forall|i: int| 0 <= i < items.len() ==> spec_keyval_of(items[i], #[trigger] out[i])
}

/// Decodes every keyed element of an array, or fails if any fails.
pub fn decode_keyvals(items: &Vec<JsonValue>) -> (r: Option<Vec<crate::response::ReleaseKeyVal>>)
    ensures
        r is Some <==> spec_keyvals_ok(items@),
        r matches Some(out) ==> spec_keyvals_of(items@, out@),
{
    let mut out: Vec<crate::response::ReleaseKeyVal> = Vec::new();
    let mut i: usize = 0;
    while i < items.len()
        invariant
            i <= items@.len(),
            out@.len() == i,
            forall|j: int| 0 <= j < i ==> spec_keyval_ok(#[trigger] items@[j]),
            forall|j: int| 0 <= j < i ==> spec_keyval_of(items@[j], #[trigger] out@[j]),
        decreases items@.len() - i,
    {
        match decode_keyval(&items[i]) {
            Some(kv) => {
                out.push(kv);
            },
            None => {
                proof {
                    assert(!spec_keyval_ok(items@[i as int]));
                }
                return None;
            },
        }
        i = i + 1;
    }
    Some(out)
}


/// Builds the JSON node a `Category` decodes from: the round-trip law
/// for this schema is this function's contract — decoding the encoded
/// node yields every declared field back without loss.  Absent notes
/// encode as `Null`.
pub fn encode_category(c: &Category) -> (v: JsonValue)
    requires
        c.id <= i64::MAX as usize,
        c.parent_id <= i64::MAX as usize,
    ensures
        Category::spec_decode(v) == Some(*c),
{
    let mut fields: Vec<(String, JsonValue)> = Vec::new();
    fields.push(("id".to_owned(), JsonValue::Int(c.id as i64)));
    fields.push(("name".to_owned(), JsonValue::Str(c.name.clone())));
    fields.push(("parent_id".to_owned(), JsonValue::Int(c.parent_id as i64)));
    let notes = match &c.notes {
        Some(s) => JsonValue::Str(s.clone()),
        None => JsonValue::Null,
    };
    fields.push(("notes".to_owned(), notes));
    let v = JsonValue::Obj(fields);
    proof {
        reveal_strlit("id");
        reveal_strlit("name");
        reveal_strlit("parent_id");
        reveal_strlit("notes");
        reveal_with_fuel(spec_lookup, 5);
        assert("id"@.len() == 2);
        assert("name"@.len() == 4);
        assert("parent_id"@.len() == 9);
        assert("notes"@.len() == 5);
        assert("id"@ != "name"@);
        assert("id"@ != "parent_id"@);
        assert("id"@ != "notes"@);
        assert("name"@ != "parent_id"@);
        assert("name"@ != "notes"@);
        assert("parent_id"@ != "notes"@);
        assert(spec_lookup(fields@, "id"@) == Some(fields@[0].1));
        assert(spec_lookup(fields@, "name"@) == Some(fields@[1].1));
        assert(spec_lookup(fields@, "parent_id"@) == Some(fields@[2].1));
        assert(spec_lookup(fields@, "notes"@) == Some(fields@[3].1));
        assert(spec_get_usize(fields@, "id"@) == Some(c.id));
        assert(spec_get_usize(fields@, "parent_id"@) == Some(c.parent_id));
        assert(spec_get_string(fields@, "name"@) == Some(c.name));
        assert(spec_get_opt_string(fields@, "notes"@) == Some(c.notes));
    }
    v
}


/// Builds the JSON node a `TagItem` decodes from: the round-trip law for
/// this item — decoding the encoded node yields every declared field
/// back.  Absent notes encode as `Null`.
pub fn encode_tag_item(t: &TagItem) -> (v: JsonValue)
    ensures
        TagItem::spec_decode(v) == Some(*t),
{
    let mut fields: Vec<(String, JsonValue)> = Vec::new();
    fields.push(("name".to_owned(), JsonValue::Str(t.name.clone())));
    fields.push(("group_id".to_owned(), JsonValue::Str(t.group_id.clone())));
    let notes = match &t.notes {
        Some(s) => JsonValue::Str(s.clone()),
        None => JsonValue::Null,
    };
    fields.push(("notes".to_owned(), notes));
    fields.push(("created".to_owned(), JsonValue::Str(t.created.clone())));
    fields.push(("popularity".to_owned(), JsonValue::Int(t.popularity as i64)));
    fields.push(("series_count".to_owned(), JsonValue::Int(t.series_count as i64)));
    let v = JsonValue::Obj(fields);
    proof {
        reveal_strlit("name");
        reveal_strlit("group_id");
        reveal_strlit("notes");
        reveal_strlit("created");
        reveal_strlit("popularity");
        reveal_strlit("series_count");
        reveal_with_fuel(spec_lookup, 7);
        assert("name"@.len() == 4);
        assert("group_id"@.len() == 8);
        assert("notes"@.len() == 5);
        assert("created"@.len() == 7);
        assert("popularity"@.len() == 10);
        assert("series_count"@.len() == 12);
        assert(spec_lookup(fields@, "name"@) == Some(fields@[0].1));
        assert(spec_lookup(fields@, "group_id"@) == Some(fields@[1].1));
        assert(spec_lookup(fields@, "notes"@) == Some(fields@[2].1));
        assert(spec_lookup(fields@, "created"@) == Some(fields@[3].1));
        assert(spec_lookup(fields@, "popularity"@) == Some(fields@[4].1));
        assert(spec_lookup(fields@, "series_count"@) == Some(fields@[5].1));
        assert(spec_get_opt_string(fields@, "notes"@) == Some(t.notes));
        assert(spec_get_isize(fields@, "popularity"@) == Some(t.popularity));
        assert(spec_get_isize(fields@, "series_count"@) == Some(t.series_count));
    }
    v
}

/// Builds the JSON node a `SeriesTags` envelope decodes from: the
/// round-trip law for this schema — the encoded node has the schema's
/// shape, and decoding it reads back every declared field, pagination and
/// payload alike, without loss.
pub fn encode_series_tags(st: &SeriesTags) -> (v: JsonValue)
    ensures
        <SeriesTags as crate::schemas::JsonResponse>::spec_ok(v),
        <SeriesTags as crate::schemas::JsonResponse>::spec_of(v, *st),
{
    let mut items: Vec<JsonValue> = Vec::new();
    let mut i: usize = 0;
    let ghost f = |x: JsonValue| TagItem::spec_decode(x);
    while i < st.tags.len()
        invariant
            i <= st.tags@.len(),
            items@.len() == i,
            f == (|x: JsonValue| TagItem::spec_decode(x)),
            forall|j: int| 0 <= j < i ==> (#[trigger] f(items@[j])) == Some(st.tags@[j]),
        decreases st.tags@.len() - i,
    {
        let node = encode_tag_item(&st.tags[i]);
        items.push(node);
        i = i + 1;
    }
    proof {
        assert(spec_decode_seq(items@, f) == Some(st.tags@)) by {
            assert(forall|j: int| 0 <= j < items@.len() ==> (#[trigger] f(items@[j])) is Some);
            assert(Seq::new(items@.len(), |j: int| f(items@[j]).unwrap()) =~= st.tags@);
        }
    }
    let mut fields: Vec<(String, JsonValue)> = Vec::new();
    fields.push(("realtime_start".to_owned(), JsonValue::Str(st.realtime_start.clone())));
    fields.push(("realtime_end".to_owned(), JsonValue::Str(st.realtime_end.clone())));
    fields.push(("order_by".to_owned(), JsonValue::Str(st.order_by.clone())));
    fields.push(("sort_order".to_owned(), JsonValue::Str(st.sort_order.clone())));
    fields.push(("count".to_owned(), JsonValue::Int(st.count as i64)));
    fields.push(("offset".to_owned(), JsonValue::Int(st.offset as i64)));
    fields.push(("limit".to_owned(), JsonValue::Int(st.limit as i64)));
    fields.push(("tags".to_owned(), JsonValue::Arr(items)));
    let v = JsonValue::Obj(fields);
    proof {
        reveal_strlit("realtime_start");
        reveal_strlit("realtime_end");
        reveal_strlit("order_by");
        reveal_strlit("sort_order");
        reveal_strlit("count");
        reveal_strlit("offset");
        reveal_strlit("limit");
        reveal_strlit("tags");
        reveal_with_fuel(spec_lookup, 9);
        assert("realtime_start"@.len() == 14);
        assert("realtime_end"@.len() == 12);
        assert("order_by"@.len() == 8);
        assert("sort_order"@.len() == 10);
        assert("count"@.len() == 5);
        assert("offset"@.len() == 6);
        assert("limit"@.len() == 5);
        assert("tags"@.len() == 4);
        assert("count"@[0] == 'c' && "limit"@[0] == 'l');
        assert("count"@ != "limit"@);
        assert(spec_lookup(fields@, "realtime_start"@) == Some(fields@[0].1));
        assert(spec_lookup(fields@, "realtime_end"@) == Some(fields@[1].1));
        assert(spec_lookup(fields@, "order_by"@) == Some(fields@[2].1));
        assert(spec_lookup(fields@, "sort_order"@) == Some(fields@[3].1));
        assert(spec_lookup(fields@, "count"@) == Some(fields@[4].1));
        assert(spec_lookup(fields@, "offset"@) == Some(fields@[5].1));
        assert(spec_lookup(fields@, "limit"@) == Some(fields@[6].1));
        assert(spec_lookup(fields@, "tags"@) == Some(fields@[7].1));
        assert(spec_get_isize(fields@, "count"@) == Some(st.count));
        assert(spec_get_isize(fields@, "offset"@) == Some(st.offset));
        assert(spec_get_isize(fields@, "limit"@) == Some(st.limit));
        assert(spec_envelope_ok(fields@));
    }
    v
}

} // verus!
