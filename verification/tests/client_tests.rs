use fred_api::errors::ErrorKind;
use fred_api::FredClient;
use fred_api::FredClientIter;

fn series_tags_body() -> String {
    "{\"realtime_start\":\"2020-01-01\",\"realtime_end\":\"2020-01-01\",\"order_by\":\"series_count\",\"sort_order\":\"desc\",\"count\":1,\"offset\":0,\"limit\":1000,\"tags\":[{\"name\":\"cpi\",\"group_id\":\"gen\",\"notes\":null,\"created\":\"2012-02-27\",\"popularity\":70,\"series_count\":5}]}"
    .to_string()
}

#[test]
fn fred_client_iter_works() {
    let iter = FredClientIter::new(vec![1usize, 2, 3], |id: usize| {
        FredClient::category(id, None, |_u: String| Err("offline".to_string()))
    });
    let _ = iter;
}

#[test]
fn fred_client_iter_yields_one_result_per_argument() {
    let mut iter = FredClientIter::new(vec![1usize, 2], |id: usize| {
        FredClient::category(id, None, |_u: String| Err("offline".to_string()))
    });
    assert!(iter.next().is_some());
    assert!(iter.next().is_some());
    assert!(iter.next().is_none());
}

#[test]
fn test_series_tags() {
    let series_tags = FredClient::series_tags("JPNCPIALLMINMEI", Some("abc123"), |_u: String| {
        Ok(series_tags_body())
    })
    .unwrap();
    assert_eq!(series_tags.order_by, "series_count");
}

#[test]
fn facade_hands_transport_the_exact_request_target() {
    let st = FredClient::series_tags("JPNCPIALLMINMEI", Some("abc123"), |u: String| {
        assert_eq!(
            u,
            "https://api.stlouisfed.org/fred/series/tags?series_id=JPNCPIALLMINMEI&api_key=abc123&file_type=json"
        );
        Ok(series_tags_body())
    })
    .unwrap();
    assert_eq!(st.count, 1);
    assert_eq!(st.tags.len(), 1);
    assert_eq!(st.tags[0].name, "cpi");
    assert_eq!(st.tags[0].popularity, 70);
    assert_eq!(st.tags[0].notes, None);
}

#[test]
fn missing_credential_fails_before_any_network_call() {
    let r = FredClient::series_tags("JPNCPIALLMINMEI", None, |_u: String| -> Result<
        String,
        String,
    > {
        panic!("the transport must not be called without a credential")
    });
    assert!(matches!(r.unwrap_err().kind(), ErrorKind::Configuration));
}

#[test]
fn transport_failure_is_surfaced_verbatim() {
    let r = FredClient::tags(Some("k"), |_u: String| Err("connection refused".to_string()));
    match r.unwrap_err().kind() {
        ErrorKind::Transport(m) => assert_eq!(m, "connection refused"),
        other => panic!("wrong kind: {:?}", other),
    }
}

#[test]
fn category_call_decodes_payload() {
    let body = "{\"categories\":[{\"id\":125,\"name\":\"Trade Balance\",\"parent_id\":13,\"notes\":null}]}"
    .to_string();
    let cats = FredClient::category(125, Some("k"), move |u: String| {
        assert_eq!(
            u,
            "https://api.stlouisfed.org/fred/category?category_id=125&api_key=k&file_type=json"
        );
        Ok(body.clone())
    })
    .unwrap();
    assert_eq!(cats.categories.len(), 1);
    assert_eq!(cats.categories[0].id, 125);
    assert_eq!(cats.categories[0].name, "Trade Balance");
    assert_eq!(cats.categories[0].parent_id, 13);
}

#[test]
fn series_json_returns_the_decoded_json_string() {
    let r = FredClient::series_json("X", Some("k"), |_u: String| {
        Ok("\"hello\"".to_string())
    })
    .unwrap();
    assert_eq!(r, "hello");

    let r = FredClient::series_json("X", Some("k"), |_u: String| Ok("{}".to_string()));
    assert!(matches!(r.unwrap_err().kind(), ErrorKind::Decode(_, _)));
}

#[test]
fn release_tables_decodes_nested_children() {
    let body = "{\"name\":\"T\",\"element_id\":1,\"release_id\":\"53\",\"elements\":[{\"key\":10,\"value\":{\"element_id\":10,\"release_id\":\"53\",\"series_id\":\"S1\",\"parent_id\":\"0\",\"line\":\"1\",\"type\":\"header\",\"name\":\"top\",\"level\":\"0\",\"children\":[{\"element_id\":11,\"release_id\":\"53\",\"series_id\":\"S2\",\"parent_id\":\"10\",\"line\":\"2\",\"type\":\"series\",\"name\":\"leaf\",\"level\":\"1\",\"children\":[]}]}}]}"
    .to_string();
    let t = FredClient::release_tables(53, Some("k"), move |_u: String| Ok(body.clone())).unwrap();
    assert_eq!(t.name, "T");
    assert_eq!(t.elements.len(), 1);
    assert_eq!(t.elements[0].key, 10);
    assert_eq!(t.elements[0].value.name, "top");
    assert_eq!(t.elements[0].value.children.len(), 1);
    assert_eq!(t.elements[0].value.children[0].name, "leaf");
    assert_eq!(t.elements[0].value.children[0].ty, "series");
    assert_eq!(t.elements[0].value.children[0].children.len(), 0);
}

#[test]
fn series_vintagedates_decodes_string_list() {
    let body = "{\"realtime_start\":\"a\",\"realtime_end\":\"b\",\"order_by\":\"vintage_date\",\"sort_order\":\"asc\",\"count\":2,\"offset\":0,\"limit\":100,\"vintage_dates\":[\"1958-12-21\",\"1959-02-19\"]}"
    .to_string();
    let v = FredClient::series_vintagedates("X", Some("k"), move |_u: String| Ok(body.clone()))
        .unwrap();
    assert_eq!(v.vintage_dates, vec!["1958-12-21", "1959-02-19"]);
}

#[test]
fn series_observations_decodes_all_fields() {
    let body = "{\"realtime_start\":\"2020-01-01\",\"realtime_end\":\"2020-01-01\",\"observation_start\":\"1948-01-01\",\"observation_end\":\"2019-12-01\",\"units\":\"lin\",\"output_type\":1,\"file_type\":\"json\",\"order_by\":\"observation_date\",\"sort_order\":\"asc\",\"count\":2,\"offset\":0,\"limit\":100000,\"observations\":[{\"realtime_start\":\"a\",\"realtime_end\":\"b\",\"date\":\"1948-01-01\",\"value\":\"3.4\"},{\"realtime_start\":\"a\",\"realtime_end\":\"b\",\"date\":\"1948-02-01\",\"value\":\"3.8\"}]}"
    .to_string();
    let so = FredClient::series_observations("UNRATE", Some("k"), move |_u: String| {
        Ok(body.clone())
    })
    .unwrap();
    assert_eq!(so.output_type, 1);
    assert_eq!(so.units, "lin");
    assert_eq!(so.observations.0.len(), 2);
    let mut it = so.observations.iter();
    assert_eq!(it.next().unwrap().value, "3.4");
    assert_eq!(it.next().unwrap().date, "1948-02-01");
    assert!(it.next().is_none());
}

#[test]
fn series_decode_reads_group_popularity() {
    let body = "{\"realtime_start\":\"a\",\"realtime_end\":\"b\",\"seriess\":[{\"id\":\"GDP\",\"realtime_start\":\"a\",\"realtime_end\":\"b\",\"title\":\"T\",\"observation_start\":\"c\",\"observation_end\":\"d\",\"frequency\":\"f\",\"units\":\"u\",\"units_short\":\"u\",\"seasonal_adjustment\":\"s\",\"seasonal_adjustment_short\":\"s\",\"last_updated\":\"e\",\"popularity\":42,\"group_popularity\":77,\"notes\":\"some notes\"}]}"
    .to_string();
    let s = FredClient::series("GDP", Some("k"), move |_u: String| Ok(body.clone())).unwrap();
    let items = s.seriess.inner();
    assert_eq!(items[0].popularity, 42);
    assert_eq!(items[0].group_popularity, Some(77));
    assert_eq!(items[0].notes, Some("some notes".to_string()));
    assert_eq!(items[0].seasonal_adjustment_short, "s");
}
