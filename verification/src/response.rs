//! The typed response model: one struct per response shape the API can
//! answer with, plus the filterable series collection.
//!
//! Every entity is a flat record of plain values, created by decoding one
//! response body and never mutated afterwards.  The collection filters
//! build new collections and keep the original order.

use vstd::prelude::*;

use crate::text::{spec_contains, str_contains, string_eq};

verus! {

broadcast use vstd::seq_lib::group_seq_properties;

/// See Fred docs: `/fred/category` and relatives.
#[derive(Debug, PartialEq)]
pub struct Category {
    pub id: usize,
    pub name: String,
    pub parent_id: usize,
    pub notes: Option<String>,
}

impl Category {
    /// A structurally equal copy.
    pub fn duplicate(&self) -> (r: Category)
        ensures
            r == *self,
    {
        Category {
            id: self.id,
            name: self.name.clone(),
            parent_id: self.parent_id,
            notes: match &self.notes {
                Some(s) => Some(s.clone()),
                None => None,
            },
        }
    }
}

/// See Fred docs: `/fred/category`.
#[derive(Debug, PartialEq)]
pub struct Categories {
    pub categories: Vec<Category>,
}

/// See Fred docs: `/fred/category/children`.
#[derive(Debug, PartialEq)]
pub struct CategoryChildren {
    pub categories: Vec<Category>,
}

/// See Fred docs: `/fred/category/related`.
#[derive(Debug, PartialEq)]
pub struct CategoryRelated {
    pub categories: Vec<Category>,
}

/// One economic data series.
#[derive(Debug, PartialEq)]
pub struct SeriesItem {
    pub id: String,
    pub realtime_start: String,
    pub realtime_end: String,
    pub title: String,
    pub observation_start: String,
    pub observation_end: String,
    pub frequency: String,
    pub units: String,
    pub units_short: String,
    pub seasonal_adjustment: String,
    pub seasonal_adjustment_short: String,
    pub last_updated: String,
    pub popularity: isize,
    pub group_popularity: Option<isize>,
    pub notes: Option<String>,
}

impl Clone for SeriesItem {
    /// A structurally equal copy.
    fn clone(&self) -> (r: SeriesItem)
        ensures
            r == *self,
    {
        SeriesItem {
            id: self.id.clone(),
            realtime_start: self.realtime_start.clone(),
            realtime_end: self.realtime_end.clone(),
            title: self.title.clone(),
            observation_start: self.observation_start.clone(),
            observation_end: self.observation_end.clone(),
            frequency: self.frequency.clone(),
            units: self.units.clone(),
            units_short: self.units_short.clone(),
            seasonal_adjustment: self.seasonal_adjustment.clone(),
            seasonal_adjustment_short: self.seasonal_adjustment_short.clone(),
            last_updated: self.last_updated.clone(),
            popularity: self.popularity,
            group_popularity: self.group_popularity,
            notes: match &self.notes {
                Some(s) => Some(s.clone()),
                None => None,
            },
        }
    }
}

/// The views of a phrase list.
pub open spec fn phrase_views(phrases: Seq<&str>) -> Seq<Seq<char>> {
    phrases.map_values(|p: &str| p@)
}

/// True when the title contains at least one of the phrases.
pub open spec fn spec_title_matches_any(title: Seq<char>, phrases: Seq<Seq<char>>) -> bool {
    exists|i: int| 0 <= i < phrases.len() && #[trigger] spec_contains(title, phrases[i])
}

/// True when the title equals one of the given titles.
pub open spec fn spec_title_equals_any(title: Seq<char>, titles: Seq<Seq<char>>) -> bool {
    exists|i: int| 0 <= i < titles.len() && title == #[trigger] titles[i]
}

/// The items whose title contains none of the phrases, in order.
pub open spec fn spec_exclude_phrases(
    items: Seq<SeriesItem>,
    phrases: Seq<Seq<char>>,
) -> Seq<SeriesItem> {
    items.filter(|s: SeriesItem| !spec_title_matches_any(s.title@, phrases))
}

/// The items whose title contains the phrase, in order.
pub open spec fn spec_has_phrase(items: Seq<SeriesItem>, phrase: Seq<char>) -> Seq<SeriesItem> {
    items.filter(|s: SeriesItem| spec_contains(s.title@, phrase))
}

/// The items whose title equals one of the titles, in order.
pub open spec fn spec_equals_one_of(
    items: Seq<SeriesItem>,
    titles: Seq<Seq<char>>,
) -> Seq<SeriesItem> {
    items.filter(|s: SeriesItem| spec_title_equals_any(s.title@, titles))
}

/// The items whose title contains at least one of the phrases, in order.
pub open spec fn spec_only_include(
    items: Seq<SeriesItem>,
    phrases: Seq<Seq<char>>,
) -> Seq<SeriesItem> {
    items.filter(|s: SeriesItem| spec_title_matches_any(s.title@, phrases))
}

/// True when the title of `item` contains at least one of `phrases`.
fn title_matches_any(title: &str, phrases: &Vec<&str>) -> (b: bool)
    ensures
        b == spec_title_matches_any(title@, phrase_views(phrases@)),
{
    let mut i: usize = 0;
    while i < phrases.len()
        invariant
            i <= phrases@.len(),
            forall|j: int|
                0 <= j < i ==> !#[trigger] spec_contains(title@, phrase_views(phrases@)[j]),
        decreases phrases@.len() - i,
    {
        if str_contains(title, phrases[i]) {
            proof {
                assert(spec_contains(title@, phrase_views(phrases@)[i as int]));
            }
            return true;
        }
        i = i + 1;
    }
    false
}

/// True when the title equals one of `titles`.
fn title_equals_any(title: &String, titles: &Vec<&str>) -> (b: bool)
    ensures
        b == spec_title_equals_any(title@, phrase_views(titles@)),
{
    let mut i: usize = 0;
    while i < titles.len()
        invariant
            i <= titles@.len(),
            forall|j: int| 0 <= j < i ==> title@ != #[trigger] phrase_views(titles@)[j],
        decreases titles@.len() - i,
    {
        if string_eq(title, titles[i]) {
            proof {
                assert(title@ == phrase_views(titles@)[i as int]);
            }
            return true;
        }
        i = i + 1;
    }
    false
}

/// An ordered collection of series, with derived read-only views.
#[derive(Debug, PartialEq)]
pub struct SeriesItems(pub Vec<SeriesItem>);

/// Walks a [`SeriesItems`] front to back.
pub struct SeriesItemsIter<'a> {
    pub data: &'a SeriesItems,
    pub count: usize,
}

impl<'a> SeriesItemsIter<'a> {
    /// The next item, if any.
    pub fn next(&mut self) -> (r: Option<&'a SeriesItem>)
        ensures
            old(self).count < old(self).data.0@.len() ==> (r matches Some(item) && *item == old(
                self,
            ).data.0@[old(self).count as int] && final(self).count == old(self).count + 1),
            old(self).count >= old(self).data.0@.len() ==> (r is None && final(self).count == old(
                self,
            ).count),
            final(self).data == old(self).data,
    {
        if self.count == self.data.0.len() {
            None
        } else if self.count < self.data.0.len() {
            self.count = self.count + 1;
            Some(&self.data.0[self.count - 1])
        } else {
            None
        }
    }
}

impl SeriesItems {
    /// Starts a walk over the collection.
    pub fn iter<'a>(&'a self) -> (r: SeriesItemsIter<'a>)
        ensures
            r.data == self,
            r.count == 0,
    {
        SeriesItemsIter { data: &self, count: 0 }
    }

    /// Keeps the series whose title contains none of the given phrases;
    /// the original order is kept and the receiver is untouched.
    pub fn exclude_phrases(&self, phrases: Vec<&str>) -> (r: SeriesItems)
        ensures
            r.0@ == spec_exclude_phrases(self.0@, phrase_views(phrases@)),
    {
        let ghost pvs = phrase_views(phrases@);
        let ghost pred = |s: SeriesItem| !spec_title_matches_any(s.title@, pvs);
        let mut v: Vec<SeriesItem> = Vec::new();
        let mut i: usize = 0;
        proof {
            reveal(Seq::filter);
            assert(self.0@.take(0) =~= Seq::<SeriesItem>::empty());
        }
        while i < self.0.len()
            invariant
                i <= self.0@.len(),
                pvs == phrase_views(phrases@),
                pred == (|s: SeriesItem| !spec_title_matches_any(s.title@, pvs)),
                v@ == self.0@.take(i as int).filter(pred),
            decreases self.0@.len() - i,
        {
            let item = &self.0[i];
            if !title_matches_any(item.title.as_str(), &phrases) {
                v.push(item.clone());
            }
            proof {
                reveal(Seq::filter);
                assert(self.0@.take(i + 1).drop_last() =~= self.0@.take(i as int));
                assert(self.0@.take(i + 1).last() == self.0@[i as int]);
            }
            i = i + 1;
        }
        proof {
            assert(self.0@.take(self.0@.len() as int) =~= self.0@);
        }
        SeriesItems(v)
    }

    /// Keeps the series whose title contains the given phrase; the
    /// original order is kept and the receiver is untouched.
    pub fn has_phrase(&self, phrase: &str) -> (r: SeriesItems)
        ensures
            r.0@ == spec_has_phrase(self.0@, phrase@),
    {
        let ghost pred = |s: SeriesItem| spec_contains(s.title@, phrase@);
        let mut v: Vec<SeriesItem> = Vec::new();
        let mut i: usize = 0;
        proof {
            reveal(Seq::filter);
            assert(self.0@.take(0) =~= Seq::<SeriesItem>::empty());
        }
        while i < self.0.len()
            invariant
                i <= self.0@.len(),
                pred == (|s: SeriesItem| spec_contains(s.title@, phrase@)),
                v@ == self.0@.take(i as int).filter(pred),
            decreases self.0@.len() - i,
        {
            let item = &self.0[i];
            if str_contains(item.title.as_str(), phrase) {
                v.push(item.clone());
            }
            proof {
                reveal(Seq::filter);
                assert(self.0@.take(i + 1).drop_last() =~= self.0@.take(i as int));
                assert(self.0@.take(i + 1).last() == self.0@[i as int]);
            }
            i = i + 1;
        }
        proof {
            assert(self.0@.take(self.0@.len() as int) =~= self.0@);
        }
        SeriesItems(v)
    }

    /// Keeps the series whose title equals one of the given titles; the
    /// original order is kept and the receiver is untouched.
    pub fn equals_one_of(&self, titles: Vec<&str>) -> (r: SeriesItems)
        ensures
            r.0@ == spec_equals_one_of(self.0@, phrase_views(titles@)),
    {
        let ghost tvs = phrase_views(titles@);
        let ghost pred = |s: SeriesItem| spec_title_equals_any(s.title@, tvs);
        let mut v: Vec<SeriesItem> = Vec::new();
        let mut i: usize = 0;
        proof {
            reveal(Seq::filter);
            assert(self.0@.take(0) =~= Seq::<SeriesItem>::empty());
        }
        while i < self.0.len()
            invariant
                i <= self.0@.len(),
                tvs == phrase_views(titles@),
                pred == (|s: SeriesItem| spec_title_equals_any(s.title@, tvs)),
                v@ == self.0@.take(i as int).filter(pred),
            decreases self.0@.len() - i,
        {
            let item = &self.0[i];
            if title_equals_any(&item.title, &titles) {
                v.push(item.clone());
            }
            proof {
                reveal(Seq::filter);
                assert(self.0@.take(i + 1).drop_last() =~= self.0@.take(i as int));
                assert(self.0@.take(i + 1).last() == self.0@[i as int]);
            }
            i = i + 1;
        }
        proof {
            assert(self.0@.take(self.0@.len() as int) =~= self.0@);
        }
        SeriesItems(v)
    }

    /// Keeps the series whose title contains at least one of the given
    /// phrases; the original order is kept and the receiver is untouched.
    pub fn only_include(&self, phrases: Vec<&str>) -> (r: SeriesItems)
        ensures
            r.0@ == spec_only_include(self.0@, phrase_views(phrases@)),
    {
        let ghost pvs = phrase_views(phrases@);
        let ghost pred = |s: SeriesItem| spec_title_matches_any(s.title@, pvs);
        let mut v: Vec<SeriesItem> = Vec::new();
        let mut i: usize = 0;
        proof {
            reveal(Seq::filter);
            assert(self.0@.take(0) =~= Seq::<SeriesItem>::empty());
        }
        while i < self.0.len()
            invariant
                i <= self.0@.len(),
                pvs == phrase_views(phrases@),
                pred == (|s: SeriesItem| spec_title_matches_any(s.title@, pvs)),
                v@ == self.0@.take(i as int).filter(pred),
            decreases self.0@.len() - i,
        {
            let item = &self.0[i];
            if title_matches_any(item.title.as_str(), &phrases) {
                v.push(item.clone());
            }
            proof {
                reveal(Seq::filter);
                assert(self.0@.take(i + 1).drop_last() =~= self.0@.take(i as int));
                assert(self.0@.take(i + 1).last() == self.0@[i as int]);
            }
            i = i + 1;
        }
        proof {
            assert(self.0@.take(self.0@.len() as int) =~= self.0@);
        }
        SeriesItems(v)
    }

    /// A copy of the items.
    pub fn inner(&self) -> (r: Vec<SeriesItem>)
        ensures
            r@ == self.0@,
    {
        let mut v: Vec<SeriesItem> = Vec::new();
        let mut i: usize = 0;
        while i < self.0.len()
            invariant
                i <= self.0@.len(),
                v@ == self.0@.take(i as int),
            decreases self.0@.len() - i,
        {
            v.push(self.0[i].clone());
            proof {
                assert(v@ =~= self.0@.take(i + 1));
            }
            i = i + 1;
        }
        proof {
            assert(self.0@.take(self.0@.len() as int) =~= self.0@);
        }
        v
    }
}

/// Any sequence filtered by a predicate and by its negation is split into
/// two parts that together hold exactly the original items: nothing is
/// kept twice and nothing is dropped.
proof fn lemma_filter_partition<A>(s: Seq<A>, pred: spec_fn(A) -> bool)
    ensures
        s.filter(pred).to_multiset().add(
            s.filter(|x: A| !pred(x)).to_multiset(),
        ) =~= s.to_multiset(),
    decreases s.len(),
{
    reveal(Seq::filter);
    s.to_multiset_ensures();
    if s.len() == 0 {
        assert(s.filter(pred) =~= s);
        assert(s.filter(|x: A| !pred(x)) =~= s);
    } else {
        let t = s.drop_last();
        let x = s.last();
        lemma_filter_partition(t, pred);
        t.to_multiset_ensures();
        t.filter(pred).to_multiset_ensures();
        t.filter(|y: A| !pred(y)).to_multiset_ensures();
        assert(t.push(x) =~= s);
    }
}

/// Filtering is idempotent: filtering an already filtered sequence with
/// the same predicate changes nothing.
proof fn lemma_filter_idempotent<A>(s: Seq<A>, pred: spec_fn(A) -> bool)
    ensures
        s.filter(pred).filter(pred) == s.filter(pred),
    decreases s.len(),
{
    reveal(Seq::filter);
    if s.len() == 0 {
    } else {
        let t = s.drop_last();
        let x = s.last();
        lemma_filter_idempotent(t, pred);
        if pred(x) {
            assert(t.filter(pred).push(x).drop_last() =~= t.filter(pred));
        }
    }
}

/// A phrase list of one phrase matches exactly the titles that contain
/// that phrase.
pub proof fn lemma_singleton_phrase(title: Seq<char>, phrase: Seq<char>)
    ensures
        spec_title_matches_any(title, seq![phrase]) == spec_contains(title, phrase),
{
    if spec_contains(title, phrase) {
        assert(spec_contains(title, seq![phrase][0]));
    }
}

/// For a single phrase, `exclude_phrases` and `has_phrase` are
/// complementary: together they keep every item of the collection exactly
/// once, with no overlap and no omission.
pub proof fn lemma_exclude_has_phrase_partition(items: Seq<SeriesItem>, phrase: Seq<char>)
    ensures
        spec_exclude_phrases(items, seq![phrase]).to_multiset().add(
            spec_has_phrase(items, phrase).to_multiset(),
        ) == items.to_multiset(),
        forall|i: int|
            0 <= i < spec_exclude_phrases(items, seq![phrase]).len() ==> !spec_contains(
                (#[trigger] spec_exclude_phrases(items, seq![phrase])[i]).title@,
                phrase,
            ),
        forall|i: int|
            0 <= i < spec_has_phrase(items, phrase).len() ==> spec_contains(
                (#[trigger] spec_has_phrase(items, phrase)[i]).title@,
                phrase,
            ),
{
    let keep = |s: SeriesItem| spec_contains(s.title@, phrase);
    let drop = |s: SeriesItem| !spec_title_matches_any(s.title@, seq![phrase]);
    assert forall|s: SeriesItem| true implies #[trigger] drop(s) == !keep(s) by {
        lemma_singleton_phrase(s.title@, phrase);
    }
    assert(spec_exclude_phrases(items, seq![phrase]) == items.filter(|s: SeriesItem| !keep(s))) by {
        reveal(Seq::filter);
        lemma_filter_congruence(items, drop, |s: SeriesItem| !keep(s));
    }
    lemma_filter_partition(items, keep);
    assert(spec_has_phrase(items, phrase).to_multiset().add(
        items.filter(|s: SeriesItem| !keep(s)).to_multiset(),
    ) =~= items.to_multiset()) by {
        lemma_multiset_add_comm(
            spec_has_phrase(items, phrase).to_multiset(),
            items.filter(|s: SeriesItem| !keep(s)).to_multiset(),
        );
    }
    broadcast use vstd::seq_lib::group_filter_ensures;

    assert forall|i: int| 0 <= i < spec_exclude_phrases(items, seq![phrase]).len() implies
        !spec_contains((#[trigger] spec_exclude_phrases(items, seq![phrase])[i]).title@, phrase) by {
        let s = spec_exclude_phrases(items, seq![phrase])[i];
        lemma_singleton_phrase(s.title@, phrase);
    }
}

/// Two extensionally equal predicates filter a sequence to the same thing.
proof fn lemma_filter_congruence<A>(s: Seq<A>, p: spec_fn(A) -> bool, q: spec_fn(A) -> bool)
    requires
        forall|x: A| #[trigger] p(x) == q(x),
    ensures
        s.filter(p) == s.filter(q),
    decreases s.len(),
{
    reveal(Seq::filter);
    if s.len() == 0 {
    } else {
        lemma_filter_congruence(s.drop_last(), p, q);
    }
}

/// Adding multisets commutes.
proof fn lemma_multiset_add_comm<A>(a: vstd::multiset::Multiset<A>, b: vstd::multiset::Multiset<A>)
    ensures
        a.add(b) =~= b.add(a),
{
}

/// `equals_one_of` is idempotent: applying it twice yields the same
/// collection as applying it once.
pub proof fn lemma_equals_one_of_idempotent(items: Seq<SeriesItem>, titles: Seq<Seq<char>>)
    ensures
        spec_equals_one_of(spec_equals_one_of(items, titles), titles) == spec_equals_one_of(
            items,
            titles,
        ),
{
    lemma_filter_idempotent(items, |s: SeriesItem| spec_title_equals_any(s.title@, titles));
}

/// See Fred docs: `/fred/category/series`.
#[derive(Debug, PartialEq)]
pub struct CategorySeries {
    pub realtime_start: String,
    pub realtime_end: String,
    pub order_by: String,
    pub count: isize,
    pub offset: isize,
    pub limit: isize,
    pub seriess: SeriesItems,
}

/// One tag.
#[derive(Debug, PartialEq)]
pub struct Tag {
    pub name: String,
    pub group_id: String,
    pub notes: Option<String>,
    pub created: String,
    pub popularity: isize,
    pub series_count: isize,
}

/// See Fred docs: `/fred/category/tags`.
#[derive(Debug, PartialEq)]
pub struct CategoryTags {
    pub realtime_start: String,
    pub realtime_end: String,
    pub order_by: String,
    pub sort_order: String,
    pub count: isize,
    pub offset: isize,
    pub limit: isize,
    pub tags: Vec<Tag>,
}

/// See Fred docs: `/fred/category/related_tags`.
#[derive(Debug, PartialEq)]
pub struct CategoryRelatedTags {
    pub realtime_start: String,
    pub realtime_end: String,
    pub order_by: String,
    pub sort_order: String,
    pub count: isize,
    pub offset: isize,
    pub limit: isize,
    pub tags: Vec<Tag>,
}

/// One release.
#[derive(Debug, PartialEq)]
pub struct ReleaseItem {
    pub id: isize,
    pub realtime_start: String,
    pub realtime_end: String,
    pub name: String,
    pub press_release: bool,
    pub link: Option<String>,
}

/// See Fred docs: `/fred/releases`.
#[derive(Debug, PartialEq)]
pub struct Releases {
    pub realtime_start: String,
    pub realtime_end: String,
    pub order_by: String,
    pub sort_order: String,
    pub count: isize,
    pub offset: isize,
    pub limit: isize,
    pub releases: Vec<ReleaseItem>,
}

/// See Fred docs: `/fred/release`.
#[derive(Debug, PartialEq)]
pub struct Release {
    pub realtime_start: String,
    pub realtime_end: String,
    pub releases: Vec<ReleaseItem>,
}

/// One release date, with the release's name.
#[derive(Debug, PartialEq)]
pub struct ReleaseDate {
    pub release_id: isize,
    pub release_name: String,
    pub date: String,
}

/// See Fred docs: `/fred/releases/dates`.
#[derive(Debug, PartialEq)]
pub struct ReleasesDates {
    pub realtime_start: String,
    pub realtime_end: String,
    pub order_by: String,
    pub sort_order: String,
    pub count: isize,
    pub offset: isize,
    pub limit: isize,
    pub release_dates: Vec<ReleaseDate>,
}

/// One release date.
#[derive(Debug, PartialEq)]
pub struct ReleaseDateItem {
    pub release_id: isize,
    pub date: String,
}

/// See Fred docs: `/fred/release/dates`.
#[derive(Debug, PartialEq)]
pub struct ReleaseDates {
    pub realtime_start: String,
    pub realtime_end: String,
    pub order_by: String,
    pub sort_order: String,
    pub count: isize,
    pub offset: isize,
    pub limit: isize,
    pub release_dates: Vec<ReleaseDateItem>,
}

/// See Fred docs: `/fred/release/series`.
#[derive(Debug, PartialEq)]
pub struct ReleaseSeries {
    pub realtime_start: String,
    pub realtime_end: String,
    pub order_by: String,
    pub sort_order: String,
    pub count: isize,
    pub offset: isize,
    pub limit: isize,
    pub seriess: SeriesItems,
}

/// One source.
#[derive(Debug, PartialEq)]
pub struct SourceItem {
    pub id: isize,
    pub realtime_start: String,
    pub realtime_end: String,
    pub name: String,
    pub link: Option<String>,
}

/// See Fred docs: `/fred/release/sources`.
#[derive(Debug, PartialEq)]
pub struct ReleaseSources {
    pub realtime_start: String,
    pub realtime_end: String,
    pub sources: Vec<SourceItem>,
}

/// One tag, as it appears in tag lists.
#[derive(Debug, PartialEq)]
pub struct TagItem {
    pub name: String,
    pub group_id: String,
    pub notes: Option<String>,
    pub created: String,
    pub popularity: isize,
    pub series_count: isize,
}

/// See Fred docs: `/fred/release/tags`.
#[derive(Debug, PartialEq)]
pub struct ReleaseTags {
    pub realtime_start: String,
    pub realtime_end: String,
    pub order_by: String,
    pub sort_order: String,
    pub count: isize,
    pub offset: isize,
    pub limit: isize,
    pub tags: Vec<TagItem>,
}

/// See Fred docs: `/fred/release/related_tags`.
#[derive(Debug, PartialEq)]
pub struct ReleaseRelatedTags {
    pub realtime_start: String,
    pub realtime_end: String,
    pub order_by: String,
    pub sort_order: String,
    pub count: isize,
    pub offset: isize,
    pub limit: isize,
    pub tags: Vec<TagItem>,
}

/// One element of a release table.
#[derive(Debug, PartialEq)]
pub struct ReleaseElement {
    pub element_id: isize,
    pub release_id: String,
    pub series_id: String,
    pub parent_id: String,
    pub line: String,
    pub ty: String,
    pub name: String,
    pub level: String,
    pub children: Vec<ReleaseElement>,
}

/// One keyed element of a release table.
#[derive(Debug, PartialEq)]
pub struct ReleaseKeyVal {
    pub key: isize,
    pub value: ReleaseElement,
}

/// See Fred docs: `/fred/release/tables`.
#[derive(Debug, PartialEq)]
pub struct ReleaseTables {
    pub name: String,
    pub element_id: isize,
    pub release_id: String,
    pub elements: Vec<ReleaseKeyVal>,
}

/// See Fred docs: `/fred/series`.
#[derive(Debug, PartialEq)]
pub struct Series {
    pub realtime_start: String,
    pub realtime_end: String,
    pub seriess: SeriesItems,
}

/// One category, as it appears under a series.
#[derive(Debug, PartialEq)]
pub struct CategoryItem {
    pub id: String,
    pub name: String,
    pub parent_id: isize,
}

/// See Fred docs: `/fred/series/categories`.
#[derive(Debug, PartialEq)]
pub struct SeriesCategories {
    pub categories: Vec<CategoryItem>,
}

/// One observation: a date and a value, both as text.
#[derive(Debug, PartialEq)]
pub struct Observation {
    pub realtime_start: String,
    pub realtime_end: String,
    pub date: String,
    pub value: String,
}

/// An ordered collection of observations.
#[derive(Debug, PartialEq)]
pub struct Observations(pub Vec<Observation>);

/// Walks an [`Observations`] front to back.
pub struct ObservationsIter<'a> {
    pub data: &'a Observations,
    pub count: usize,
}

impl<'a> ObservationsIter<'a> {
    /// The next observation, if any.
    pub fn next(&mut self) -> (r: Option<&'a Observation>)
        ensures
            old(self).count < old(self).data.0@.len() ==> (r matches Some(obs) && *obs == old(
                self,
            ).data.0@[old(self).count as int] && final(self).count == old(self).count + 1),
            old(self).count >= old(self).data.0@.len() ==> (r is None && final(self).count == old(
                self,
            ).count),
            final(self).data == old(self).data,
    {
        if self.count == self.data.0.len() {
            None
        } else if self.count < self.data.0.len() {
            self.count = self.count + 1;
            Some(&self.data.0[self.count - 1])
        } else {
            None
        }
    }
}

impl Observations {
    /// Starts a walk over the collection.
    pub fn iter<'a>(&'a self) -> (r: ObservationsIter<'a>)
        ensures
            r.data == self,
            r.count == 0,
    {
        ObservationsIter { data: &self, count: 0 }
    }
}

/// See Fred docs: `/fred/series/observations`.
#[derive(Debug, PartialEq)]
pub struct SeriesObservations {
    pub realtime_start: String,
    pub realtime_end: String,
    pub observation_start: String,
    pub observation_end: String,
    pub units: String,
    pub output_type: isize,
    pub file_type: String,
    pub order_by: String,
    pub sort_order: String,
    pub count: isize,
    pub offset: isize,
    pub limit: isize,
    pub observations: Observations,
}

/// See Fred docs: `/fred/series/release`.
#[derive(Debug, PartialEq)]
pub struct SeriesRelease {
    pub realtime_start: String,
    pub realtime_end: String,
    pub releases: Vec<ReleaseItem>,
}

/// See Fred docs: `/fred/series/search`.
#[derive(Debug, PartialEq)]
pub struct SeriesSearch {
    pub realtime_start: String,
    pub realtime_end: String,
    pub order_by: String,
    pub sort_order: String,
    pub count: isize,
    pub offset: isize,
    pub limit: isize,
    pub seriess: SeriesItems,
}

/// See Fred docs: `/fred/series/search/tags`.
#[derive(Debug, PartialEq)]
pub struct SeriesSearchTags {
    pub realtime_start: String,
    pub realtime_end: String,
    pub order_by: String,
    pub sort_order: String,
    pub count: isize,
    pub offset: isize,
    pub limit: isize,
    pub tags: Vec<TagItem>,
}

/// See Fred docs: `/fred/series/search/related_tags`.
#[derive(Debug, PartialEq)]
pub struct SeriesSearchRelatedTags {
    pub realtime_start: String,
    pub realtime_end: String,
    pub order_by: String,
    pub sort_order: String,
    pub count: isize,
    pub offset: isize,
    pub limit: isize,
    pub tags: Vec<TagItem>,
}

/// See Fred docs: `/fred/series/tags`.
#[derive(Debug, PartialEq)]
pub struct SeriesTags {
    pub realtime_start: String,
    pub realtime_end: String,
    pub order_by: String,
    pub sort_order: String,
    pub count: isize,
    pub offset: isize,
    pub limit: isize,
    pub tags: Vec<TagItem>,
}

/// What [`SeriesTags::one_line`] renders: every tag name, each followed
/// by a comma and a space, in order.
pub open spec fn spec_one_line(tags: Seq<TagItem>) -> Seq<char>
    decreases tags.len(),
{
    if tags.len() == 0 {
        Seq::empty()
    } else {
        spec_one_line(tags.drop_last()) + tags.last().name@ + ", "@
    }
}

impl SeriesTags {
    /// Renders every tag name on one line, each followed by a comma and
    /// a space.
    pub fn one_line(&self) -> (r: String)
        ensures
            r@ == spec_one_line(self.tags@),
    {
        let mut s = String::new();
        let mut i: usize = 0;
        proof {
            assert(self.tags@.take(0) =~= Seq::<TagItem>::empty());
        }
        while i < self.tags.len()
            invariant
                i <= self.tags@.len(),
                s@ == spec_one_line(self.tags@.take(i as int)),
            decreases self.tags@.len() - i,
        {
            s.append(self.tags[i].name.as_str());
            s.append(", ");
            proof {
                assert(self.tags@.take(i + 1).drop_last() =~= self.tags@.take(i as int));
                assert(self.tags@.take(i + 1).last() == self.tags@[i as int]);
                assert(s@ =~= spec_one_line(self.tags@.take(i + 1)));
            }
            i = i + 1;
        }
        proof {
            assert(self.tags@.take(self.tags@.len() as int) =~= self.tags@);
        }
        s
    }
}

/// See Fred docs: `/fred/series/updates`.
#[derive(Debug, PartialEq)]
pub struct SeriesUpdates {
    pub realtime_start: String,
    pub realtime_end: String,
    pub filter_variable: String,
    pub filter_value: String,
    pub order_by: String,
    pub sort_order: String,
    pub count: isize,
    pub offset: isize,
    pub limit: isize,
    pub seriess: SeriesItems,
}

/// See Fred docs: `/fred/series/vintage_dates`.
#[derive(Debug, PartialEq)]
pub struct SeriesVintageDates {
    pub realtime_start: String,
    pub realtime_end: String,
    pub order_by: String,
    pub sort_order: String,
    pub count: isize,
    pub offset: isize,
    pub limit: isize,
    pub vintage_dates: Vec<String>,
}

/// See Fred docs: `/fred/sources`.
#[derive(Debug, PartialEq)]
pub struct Sources {
    pub realtime_start: String,
    pub realtime_end: String,
    pub order_by: String,
    pub sort_order: String,
    pub count: isize,
    pub offset: isize,
    pub limit: isize,
    pub sources: Vec<SourceItem>,
}

/// See Fred docs: `/fred/source/releases`.
#[derive(Debug, PartialEq)]
pub struct SourceReleases {
    pub realtime_start: String,
    pub realtime_end: String,
    pub order_by: String,
    pub sort_order: String,
    pub count: isize,
    pub offset: isize,
    pub limit: isize,
    pub releases: Vec<ReleaseItem>,
}

/// See Fred docs: `/fred/tags`.
#[derive(Debug, PartialEq)]
pub struct Tags {
    pub realtime_start: String,
    pub realtime_end: String,
    pub order_by: String,
    pub sort_order: String,
    pub count: isize,
    pub offset: isize,
    pub limit: isize,
    pub tags: Vec<Tag>,
}

/// See Fred docs: `/fred/tags/series`.
#[derive(Debug, PartialEq)]
pub struct TagsSeries {
    pub realtime_start: String,
    pub realtime_end: String,
    pub order_by: String,
    pub sort_order: String,
    pub count: isize,
    pub offset: isize,
    pub limit: isize,
    pub seriess: SeriesItems,
}

/// What [`TagsSeries::series_titles`] renders: every series title, each
/// followed by a newline, in order.
pub open spec fn spec_series_titles(items: Seq<SeriesItem>) -> Seq<char>
    decreases items.len(),
{
    if items.len() == 0 {
        Seq::empty()
    } else {
        spec_series_titles(items.drop_last()) + items.last().title@ + seq!['\n']
    }
}

impl TagsSeries {
    /// Renders every series title, one per line.
    pub fn series_titles(&self) -> (r: String)
        ensures
            r@ == spec_series_titles(self.seriess.0@),
    {
        let mut s = String::new();
        let mut i: usize = 0;
        proof {
            assert(self.seriess.0@.take(0) =~= Seq::<SeriesItem>::empty());
        }
        while i < self.seriess.0.len()
            invariant
                i <= self.seriess.0@.len(),
                s@ == spec_series_titles(self.seriess.0@.take(i as int)),
            decreases self.seriess.0@.len() - i,
        {
            s.append(self.seriess.0[i].title.as_str());
            crate::text::push_char(&mut s, '\n');
            proof {
                assert(self.seriess.0@.take(i + 1).drop_last() =~= self.seriess.0@.take(i as int));
                assert(self.seriess.0@.take(i + 1).last() == self.seriess.0@[i as int]);
                assert(s@ =~= spec_series_titles(self.seriess.0@.take(i + 1)));
            }
            i = i + 1;
        }
        proof {
            assert(self.seriess.0@.take(self.seriess.0@.len() as int) =~= self.seriess.0@);
        }
        s
    }

    /// Hands out the series collection.
    pub fn series(self) -> (r: SeriesItems)
        ensures
            r == self.seriess,
    {
        self.seriess
    }
}

} // verus!
