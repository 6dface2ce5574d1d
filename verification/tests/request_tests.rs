use fred_api::errors::ErrorKind;
use fred_api::request::{Format, FredRequest, IntoRequest};
use fred_api::text::{isize_to_string, usize_to_string};

#[test]
fn series_tags_request() {
    let req = FredRequest::new(
        "series/tags",
        vec![("series_id", "JPNCPIALLMINMEI".to_string())],
    );
    let req = req.into_request(Some("abc123")).unwrap();

    assert!(req.starts_with(
        "https://api.stlouisfed.org/fred/series/tags?series_id=JPNCPIALLMINMEI&api_key="
    ));
    assert!(req.ends_with("&file_type=json"));
}

#[test]
fn request_target_is_exact() {
    let req = FredRequest::new(
        "series/tags",
        vec![("series_id", "JPNCPIALLMINMEI".to_string())],
    );
    let req = req.into_request(Some("abc123")).unwrap();
    assert_eq!(
        req,
        "https://api.stlouisfed.org/fred/series/tags?series_id=JPNCPIALLMINMEI&api_key=abc123&file_type=json"
    );
}

#[test]
fn query_preserves_order_and_duplicates() {
    let req = FredRequest::new(
        "tags",
        vec![
            ("b", "2".to_string()),
            ("a", "1".to_string()),
            ("b", "2".to_string()),
        ],
    );
    assert_eq!(req.concat_keyvals('&'), "b=2&a=1&b=2");
    assert_eq!(req.concat_keyvals(';'), "b=2;a=1;b=2");
}

#[test]
fn query_of_no_parameters_is_empty() {
    let req = FredRequest::new("releases", Vec::new());
    assert_eq!(req.concat_keyvals('&'), "");
    let url = req.into_request(Some("k")).unwrap();
    assert_eq!(
        url,
        "https://api.stlouisfed.org/fred/releases?&api_key=k&file_type=json"
    );
}

#[test]
fn missing_key_is_a_configuration_error() {
    let req = FredRequest::new("releases", Vec::new());
    let err = req.into_request(None).unwrap_err();
    assert!(matches!(err.kind(), ErrorKind::Configuration));
}

#[test]
fn base_url_is_fixed() {
    let req = FredRequest::new("releases", Vec::new());
    assert_eq!(req.base_url(), "https://api.stlouisfed.org/");
}

#[test]
fn format_fragments() {
    assert_eq!(Format::Json.query_fragment(), "file_type=json");
    assert_eq!(Format::Xml.query_fragment(), "file_type=xml");
}

#[test]
fn decimal_rendering() {
    assert_eq!(usize_to_string(0), "0");
    assert_eq!(usize_to_string(7), "7");
    assert_eq!(usize_to_string(907), "907");
    assert_eq!(usize_to_string(1000000), "1000000");
    assert_eq!(isize_to_string(-42), "-42");
    assert_eq!(isize_to_string(0), "0");
    assert_eq!(isize_to_string(125), "125");
}

#[test]
fn decimal_rendering_handles_extremes() {
    assert_eq!(usize_to_string(usize::MAX), usize::MAX.to_string());
    assert_eq!(isize_to_string(isize::MIN), isize::MIN.to_string());
    assert_eq!(isize_to_string(isize::MAX), isize::MAX.to_string());
}
