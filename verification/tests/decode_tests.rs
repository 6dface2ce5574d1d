use fred_api::decode::{encode_category, encode_series_tags, encode_tag_item, is_api_error_body, JsonDecodable};
use fred_api::schemas::JsonResponse;
use fred_api::response::TagItem;
use fred_api::errors::ErrorKind;
use fred_api::response::{Category, SeriesTags, Tags};
use fred_api::schemas::decode_response;

#[test]
fn error_code_in_first_line_is_an_api_error() {
    let body = "{\"error_code\":429,\"error_message\":\"Too Many Requests\"}";
    let r = decode_response::<SeriesTags>(body);
    match r.unwrap_err().kind() {
        ErrorKind::Api(b) => assert_eq!(b, body),
        other => panic!("wrong kind: {:?}", other),
    }
}

#[test]
fn error_code_wins_regardless_of_remaining_content() {
    let body = "{\"error_code\":429,\"error_message\":\"Too Many Requests\"}\nthis second line could say anything at all";
    let r = decode_response::<Tags>(body);
    assert!(matches!(r.unwrap_err().kind(), ErrorKind::Api(_)));
}

#[test]
fn error_code_on_a_later_line_is_not_sniffed() {
    assert!(is_api_error_body("{\"error_code\":1}"));
    assert!(!is_api_error_body("{}\n{\"error_code\":1}"));
    assert!(!is_api_error_body(""));
}

#[test]
fn missing_required_field_is_a_decode_error() {
    // A series-tags envelope without `realtime_start`.
    let body = "{\"realtime_end\":\"2020-01-01\",\"order_by\":\"series_count\",\"sort_order\":\"desc\",\"count\":0,\"offset\":0,\"limit\":1000,\"tags\":[]}";
    let r = decode_response::<SeriesTags>(body);
    match r.unwrap_err().kind() {
        ErrorKind::Decode(_, b) => assert_eq!(b, body),
        other => panic!("wrong kind: {:?}", other),
    }
}

#[test]
fn wrongly_typed_field_is_a_decode_error() {
    let body = "{\"realtime_start\":\"a\",\"realtime_end\":\"b\",\"order_by\":\"c\",\"sort_order\":\"d\",\"count\":\"not a number\",\"offset\":0,\"limit\":1,\"tags\":[]}";
    let r = decode_response::<SeriesTags>(body);
    assert!(matches!(r.unwrap_err().kind(), ErrorKind::Decode(_, _)));
}

#[test]
fn malformed_json_is_a_decode_error() {
    let r = decode_response::<Tags>("{not json at all");
    assert!(matches!(r.unwrap_err().kind(), ErrorKind::Decode(_, _)));
}

#[test]
fn empty_body_is_a_decode_error() {
    let r = decode_response::<Tags>("");
    assert!(matches!(r.unwrap_err().kind(), ErrorKind::Decode(_, _)));
}

#[test]
fn category_round_trips_through_its_encoding() {
    let with_notes = Category {
        id: 125,
        name: "Trade Balance".to_string(),
        parent_id: 13,
        notes: Some("goods and services".to_string()),
    };
    let v = encode_category(&with_notes);
    assert_eq!(Category::decode(&v), Some(with_notes));

    let without_notes = Category {
        id: 0,
        name: String::new(),
        parent_id: 0,
        notes: None,
    };
    let v = encode_category(&without_notes);
    assert_eq!(Category::decode(&v), Some(without_notes));
}

#[test]
fn optional_fields_accept_null_and_absence() {
    let with_null = "{\"categories\":[{\"id\":1,\"name\":\"n\",\"parent_id\":0,\"notes\":null}]}";
    let r = decode_response::<fred_api::response::Categories>(with_null).unwrap();
    assert_eq!(r.categories[0].notes, None);

    let absent = "{\"categories\":[{\"id\":1,\"name\":\"n\",\"parent_id\":0}]}";
    let r = decode_response::<fred_api::response::Categories>(absent).unwrap();
    assert_eq!(r.categories[0].notes, None);

    let present = "{\"categories\":[{\"id\":1,\"name\":\"n\",\"parent_id\":0,\"notes\":\"x\"}]}";
    let r = decode_response::<fred_api::response::Categories>(present).unwrap();
    assert_eq!(r.categories[0].notes, Some("x".to_string()));
}

#[test]
fn unknown_fields_are_ignored() {
    let body = "{\"categories\":[{\"id\":1,\"name\":\"n\",\"parent_id\":0,\"someday\":\"maybe\"}],\"extra\":42}";
    let r = decode_response::<fred_api::response::Categories>(body).unwrap();
    assert_eq!(r.categories.len(), 1);
}


#[test]
fn series_tags_round_trips_through_its_encoding() {
    let st = SeriesTags {
        realtime_start: "2020-01-01".to_string(),
        realtime_end: "2020-01-02".to_string(),
        order_by: "series_count".to_string(),
        sort_order: "desc".to_string(),
        count: 2,
        offset: 0,
        limit: 1000,
        tags: vec![
            TagItem {
                name: "cpi".to_string(),
                group_id: "gen".to_string(),
                notes: None,
                created: "2012-02-27".to_string(),
                popularity: 70,
                series_count: 5,
            },
            TagItem {
                name: "usa".to_string(),
                group_id: "geo".to_string(),
                notes: Some("United States".to_string()),
                created: "2012-02-27".to_string(),
                popularity: 100,
                series_count: -1,
            },
        ],
    };
    let v = encode_series_tags(&st);
    assert_eq!(SeriesTags::extract(&v), Some(st));
}

#[test]
fn tag_item_round_trips_through_its_encoding() {
    let t = TagItem {
        name: "cpi".to_string(),
        group_id: "gen".to_string(),
        notes: Some("x".to_string()),
        created: "2012-02-27".to_string(),
        popularity: 0,
        series_count: 0,
    };
    let v = encode_tag_item(&t);
    assert_eq!(TagItem::decode(&v), Some(t));
}
