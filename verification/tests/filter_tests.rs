use fred_api::response::{SeriesItem, SeriesItems};

fn item(title: &str) -> SeriesItem {
    SeriesItem {
        id: format!("id-{}", title),
        realtime_start: "2020-01-01".to_string(),
        realtime_end: "2020-01-01".to_string(),
        title: title.to_string(),
        observation_start: "1947-01-01".to_string(),
        observation_end: "2019-12-01".to_string(),
        frequency: "Monthly".to_string(),
        units: "Percent".to_string(),
        units_short: "%".to_string(),
        seasonal_adjustment: "Not Seasonally Adjusted".to_string(),
        seasonal_adjustment_short: "NSA".to_string(),
        last_updated: "2020-01-02".to_string(),
        popularity: 10,
        group_popularity: None,
        notes: None,
    }
}

fn collection() -> SeriesItems {
    SeriesItems(vec![
        item("Unemployment Rate"),
        item("Consumer Price Index"),
        item("Unemployment Level"),
        item("Gross Domestic Product"),
    ])
}

fn titles(items: &SeriesItems) -> Vec<String> {
    items.inner().into_iter().map(|s| s.title).collect()
}

#[test]
fn has_phrase_keeps_matching_titles_in_order() {
    let c = collection();
    let kept = c.has_phrase("Unemployment");
    assert_eq!(titles(&kept), vec!["Unemployment Rate", "Unemployment Level"]);
    // The receiver is untouched.
    assert_eq!(c.inner().len(), 4);
}

#[test]
fn exclude_phrases_drops_matching_titles() {
    let c = collection();
    let kept = c.exclude_phrases(vec!["Unemployment", "Price"]);
    assert_eq!(titles(&kept), vec!["Gross Domestic Product"]);
}

#[test]
fn exclude_and_has_phrase_partition_the_collection() {
    let c = collection();
    let excluded = c.exclude_phrases(vec!["Unemployment"]);
    let kept = c.has_phrase("Unemployment");
    assert_eq!(excluded.inner().len() + kept.inner().len(), c.inner().len());
    for s in c.inner() {
        let in_kept = kept.inner().iter().any(|t| t.title == s.title);
        let in_excluded = excluded.inner().iter().any(|t| t.title == s.title);
        assert!(in_kept != in_excluded);
    }
}

#[test]
fn equals_one_of_is_exact_and_idempotent() {
    let c = collection();
    let wanted = vec!["Unemployment Rate", "Gross Domestic Product"];
    let once = c.equals_one_of(wanted.clone());
    let twice = once.equals_one_of(wanted);
    assert_eq!(
        titles(&once),
        vec!["Unemployment Rate", "Gross Domestic Product"]
    );
    assert_eq!(once, twice);
}

#[test]
fn equals_one_of_does_not_match_substrings() {
    let c = collection();
    let got = c.equals_one_of(vec!["Unemployment"]);
    assert_eq!(got.inner().len(), 0);
}

#[test]
fn only_include_keeps_any_match() {
    let c = collection();
    let got = c.only_include(vec!["Price", "Product"]);
    assert_eq!(
        titles(&got),
        vec!["Consumer Price Index", "Gross Domestic Product"]
    );
}

#[test]
fn iter_walks_front_to_back() {
    let c = collection();
    let mut it = c.iter();
    assert_eq!(it.next().unwrap().title, "Unemployment Rate");
    assert_eq!(it.next().unwrap().title, "Consumer Price Index");
    assert_eq!(it.next().unwrap().title, "Unemployment Level");
    assert_eq!(it.next().unwrap().title, "Gross Domestic Product");
    assert!(it.next().is_none());
    assert!(it.next().is_none());
}
