use fred_api::error::{failed_http_request, failed_to_parse_json};
use fred_api::errors::{Error, ErrorKind};
use fred_api::response::{
    Category, Observation, Observations, SeriesItem, SeriesItems, SeriesTags, Tag, TagItem, Tags,
};
use fred_api::serialize::KeyTreeString;

fn tag(name: &str, count: isize) -> Tag {
    Tag {
        name: name.to_string(),
        group_id: "gen".to_string(),
        notes: None,
        created: "2012-02-27".to_string(),
        popularity: 50,
        series_count: count,
    }
}

fn tag_item(name: &str) -> TagItem {
    TagItem {
        name: name.to_string(),
        group_id: "gen".to_string(),
        notes: Some("note".to_string()),
        created: "2012-02-27".to_string(),
        popularity: 50,
        series_count: 3,
    }
}

#[test]
fn category_display_matches_field_lines() {
    let c = Category {
        id: 125,
        name: "Trade Balance".to_string(),
        parent_id: 13,
        notes: None,
    };
    assert_eq!(
        c.display_string(),
        "id: 125\nname: Trade Balance\nparent_id: 13\nnotes: None\n"
    );
}

#[test]
fn category_display_quotes_notes_like_debug() {
    let c = Category {
        id: 1,
        name: "n".to_string(),
        parent_id: 0,
        notes: Some("say \"hi\"".to_string()),
    };
    assert_eq!(
        c.display_string(),
        "id: 1\nname: n\nparent_id: 0\nnotes: Some(\"say \\\"hi\\\"\")\n"
    );
}

#[test]
fn tag_display_matches_field_lines() {
    assert_eq!(
        tag("cpi", -2).display_string(),
        "name: cpi\nnotes: None\nseries_count: -2"
    );
}

#[test]
fn tag_item_display_matches_field_lines() {
    assert_eq!(
        tag_item("cpi").display_string(),
        "name: cpi\ngroup_id: gen\nnotes: Some(\"note\")\n"
    );
}

#[test]
fn tags_display_numbers_entries() {
    let t = Tags {
        realtime_start: "a".to_string(),
        realtime_end: "b".to_string(),
        order_by: "c".to_string(),
        sort_order: "d".to_string(),
        count: 2,
        offset: 0,
        limit: 10,
        tags: vec![tag("one", 1), tag("two", 2)],
    };
    let expected = "0\nname: one\nnotes: None\nseries_count: 1\n\n1\nname: two\nnotes: None\nseries_count: 2\n\n";
    assert_eq!(t.display_string(), expected);
}

#[test]
fn series_tags_display_numbers_entries() {
    let st = SeriesTags {
        realtime_start: "a".to_string(),
        realtime_end: "b".to_string(),
        order_by: "c".to_string(),
        sort_order: "d".to_string(),
        count: 1,
        offset: 0,
        limit: 10,
        tags: vec![tag_item("cpi")],
    };
    assert_eq!(
        st.display_string(),
        "0\nname: cpi\ngroup_id: gen\nnotes: Some(\"note\")\n\n"
    );
}

#[test]
fn series_tags_one_line_joins_names() {
    let st = SeriesTags {
        realtime_start: "a".to_string(),
        realtime_end: "b".to_string(),
        order_by: "c".to_string(),
        sort_order: "d".to_string(),
        count: 2,
        offset: 0,
        limit: 10,
        tags: vec![tag_item("cpi"), tag_item("usa")],
    };
    assert_eq!(st.one_line(), "cpi, usa, ");
}

#[test]
fn observations_display_one_per_line() {
    let o = |d: &str, v: &str| Observation {
        realtime_start: "a".to_string(),
        realtime_end: "b".to_string(),
        date: d.to_string(),
        value: v.to_string(),
    };
    assert_eq!(o("1948-01-01", "3.4").display_string(), "1948-01-01, 3.4");
    let obs = Observations(vec![o("1948-01-01", "3.4"), o("1948-02-01", "3.8")]);
    assert_eq!(obs.display_string(), "1948-01-01, 3.4\n1948-02-01, 3.8");
    let empty = Observations(vec![]);
    assert_eq!(empty.display_string(), "");
}

#[test]
fn keytree_renders_indented_lines() {
    let mut t = KeyTreeString::new();
    t.push_key(0, "root");
    t.push_keyvalue(1, "k", "v");
    let mut u = KeyTreeString::new();
    u.push_key(0, "child");
    u.push_keyvalue(1, "a", "1");
    t.push_keytree(1, u);
    assert_eq!(t.text(), "root:\n    k: v\n    child:\n        a: 1\n");
}

#[test]
fn series_item_keytree_lists_declared_fields() {
    let s = SeriesItem {
        id: "GDP".to_string(),
        realtime_start: "a".to_string(),
        realtime_end: "b".to_string(),
        title: "Gross Domestic Product".to_string(),
        observation_start: "c".to_string(),
        observation_end: "d".to_string(),
        frequency: "Quarterly".to_string(),
        units: "Billions".to_string(),
        units_short: "B".to_string(),
        seasonal_adjustment: "SAAR".to_string(),
        seasonal_adjustment_short: "SAAR".to_string(),
        last_updated: "e".to_string(),
        popularity: 99,
        group_popularity: Some(100),
        notes: None,
    };
    let expected = "series_item:\n    id: GDP\n    realtime_start: a\n    realtime_end: b\n    title: Gross Domestic Product\n    observation_start: c\n    observation_end: d\n    frequency: Quarterly\n    units: Billions\n    units_short: B\n    seasonal_adjustment: SAAR\n    last_updated: e\n    notes: (see JSON data for notes)\n";
    assert_eq!(s.keytree().text(), expected);
    assert_eq!(s.to_keytree().text(), expected);
    assert_eq!(s.display_string(), format!("{}\n", expected));
}

#[test]
fn series_items_display_numbers_trees() {
    let s = SeriesItem {
        id: "X".to_string(),
        realtime_start: "a".to_string(),
        realtime_end: "b".to_string(),
        title: "T".to_string(),
        observation_start: "c".to_string(),
        observation_end: "d".to_string(),
        frequency: "f".to_string(),
        units: "u".to_string(),
        units_short: "u".to_string(),
        seasonal_adjustment: "s".to_string(),
        seasonal_adjustment_short: "s".to_string(),
        last_updated: "e".to_string(),
        popularity: 0,
        group_popularity: None,
        notes: None,
    };
    let items = SeriesItems(vec![s]);
    let text = items.display_string();
    assert!(text.starts_with("series: 0\n    series_item:\n        id: X\n"));
}

#[test]
fn error_messages_are_exact() {
    let e = failed_to_parse_json("boom");
    assert_eq!(
        e.message(),
        "[fred_app:01] Failed to parse JSON with error [boom]."
    );
    let e = failed_http_request("kaput");
    assert_eq!(
        e.message(),
        "[fred_api:02]] Http request failed with error [kaput]."
    );
}

#[test]
fn error_kind_equality_ignores_payloads() {
    assert_eq!(
        ErrorKind::Transport("a".to_string()),
        ErrorKind::Transport("b".to_string())
    );
    assert_ne!(
        ErrorKind::Transport("a".to_string()),
        ErrorKind::Api("a".to_string())
    );
    let e = Error::new(ErrorKind::Api("body".to_string()));
    assert!(matches!(e.kind(), ErrorKind::Api(b) if b == "body"));
    assert_eq!(e.display_string(), "API error: body");
}

#[test]
fn series_display_renders_head_and_items() {
    let s = SeriesItem {
        id: "X".to_string(),
        realtime_start: "a".to_string(),
        realtime_end: "b".to_string(),
        title: "T".to_string(),
        observation_start: "c".to_string(),
        observation_end: "d".to_string(),
        frequency: "f".to_string(),
        units: "u".to_string(),
        units_short: "u".to_string(),
        seasonal_adjustment: "s".to_string(),
        seasonal_adjustment_short: "s".to_string(),
        last_updated: "e".to_string(),
        popularity: 0,
        group_popularity: None,
        notes: None,
    };
    let series = fred_api::response::Series {
        realtime_start: "2020-01-01".to_string(),
        realtime_end: "2020-01-02".to_string(),
        seriess: SeriesItems(vec![s]),
    };
    let expected = "series:\n    realtime_start: 2020-01-01\n    realtime_end: 2020-01-02\n    series_items:\n        series_item:\n            id: X\n            realtime_start: a\n            realtime_end: b\n            title: T\n            observation_start: c\n            observation_end: d\n            frequency: f\n            units: u\n            units_short: u\n            seasonal_adjustment: s\n            last_updated: e\n            notes: (see JSON data for notes)\n\n";
    assert_eq!(series.display_string(), expected);
    assert_eq!(series.keytree().text(), &expected[..expected.len() - 1]);
}
