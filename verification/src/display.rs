//! One-line and multi-line text renderings of the response types.
//!
//! These stand in for `std::fmt::Display`: each type that renders itself
//! offers a `display_string` method whose exact output is stated in its
//! contract.

use vstd::prelude::*;

use crate::response::{
    Categories, Category, CategorySeries, Observation, Observations, Series, SeriesItem,
    SeriesItems, SeriesTags, Tag, TagItem, Tags, TagsSeries,
};
use crate::serialize::{
    spec_key_line, spec_keyvalue_line, spec_line, spec_render, spec_series_item_tree,
    spec_series_tree, KeyTreeString,
};
use crate::text::{isize_to_string, push_char, spec_decimal, spec_int_decimal, usize_to_string};
use vstd::string::StringExecFns;

verus! {

/// What `Debug` renders for a string: the name for the quoted, escaped
/// form, which depends on the characters alone.
pub uninterp spec fn debug_quoted(s: Seq<char>) -> Seq<char>;

/// Relies on `String`'s `Debug` implementation: the quoted, escaped
/// rendering of the characters.
#[verifier::external_body]
fn debug_string(s: &String) -> (r: String)
    ensures
        r@ == debug_quoted(s@),
{
    format!("{:?}", s)
}

/// What `Debug` renders for an optional string.
pub open spec fn spec_opt_debug(o: Option<String>) -> Seq<char> {
    match o {
        None => "None"@,
        Some(s) => "Some("@ + debug_quoted(s@) + ")"@,
    }
}

/// Renders an optional string the way `Debug` does.
fn opt_debug(o: &Option<String>) -> (r: String)
    ensures
        r@ == spec_opt_debug(*o),
{
    match o {
        None => "None".to_owned(),
        Some(s) => {
            let r = "Some(".to_owned().concat(debug_string(s).as_str()).concat(")");
            proof {
                assert(r@ =~= spec_opt_debug(*o));
            }
            r
        },
    }
}

/// Rendering lines one after another splits over concatenation.
proof fn lemma_render_concat(a: Seq<(usize, String)>, b: Seq<(usize, String)>)
    ensures
        spec_render(a + b) == spec_render(a) + spec_render(b),
    decreases b.len(),
{
    if b.len() == 0 {
        assert(a + b =~= a);
        assert(spec_render(b) == Seq::<char>::empty());
        assert(spec_render(a) + spec_render(b) =~= spec_render(a));
    } else {
        lemma_render_concat(a, b.drop_last());
        assert((a + b).drop_last() =~= a + b.drop_last());
        assert((a + b).last() == b.last());
        assert(spec_render(a + b) =~= spec_render(a) + spec_render(b));
    }
}

/// The rendered text of one series item tree at base indent `ind`.
pub open spec fn spec_series_item_text(s: SeriesItem, ind: nat) -> Seq<char> {
    spec_line(ind, spec_key_line("series_item"@)) + spec_line(
        ind + 1,
        spec_keyvalue_line("id"@, s.id@),
    ) + spec_line(ind + 1, spec_keyvalue_line("realtime_start"@, s.realtime_start@)) + spec_line(
        ind + 1,
        spec_keyvalue_line("realtime_end"@, s.realtime_end@),
    ) + spec_line(ind + 1, spec_keyvalue_line("title"@, s.title@)) + spec_line(
        ind + 1,
        spec_keyvalue_line("observation_start"@, s.observation_start@),
    ) + spec_line(ind + 1, spec_keyvalue_line("observation_end"@, s.observation_end@))
        + spec_line(ind + 1, spec_keyvalue_line("frequency"@, s.frequency@)) + spec_line(
        ind + 1,
        spec_keyvalue_line("units"@, s.units@),
    ) + spec_line(ind + 1, spec_keyvalue_line("units_short"@, s.units_short@)) + spec_line(
        ind + 1,
        spec_keyvalue_line("seasonal_adjustment"@, s.seasonal_adjustment@),
    ) + spec_line(ind + 1, spec_keyvalue_line("last_updated"@, s.last_updated@)) + spec_line(
        ind + 1,
        spec_keyvalue_line("notes"@, "(see JSON data for notes)"@),
    )
}

/// A line list that holds one series item tree renders to the item's
/// text.
proof fn lemma_render_item(s: SeriesItem, lines: Seq<(usize, String)>, ind: int)
    requires
        spec_series_item_tree(s, lines, ind),
        0 <= ind,
    ensures
        spec_render(lines) == spec_series_item_text(s, ind as nat),
{
    assert(spec_render(lines) =~= spec_series_item_text(s, ind as nat)) by {
        reveal_with_fuel(spec_render, 15);
        assert(lines.drop_last().drop_last().drop_last().drop_last().drop_last().drop_last()
            .drop_last().drop_last().drop_last().drop_last().drop_last().drop_last().drop_last()
            =~= lines.take(0));
        assert(lines.take(0).len() == 0);
    }
}

impl SeriesItem {
    /// The item rendered as `key: value` text, closed by a newline.
    pub fn display_string(&self) -> (r: String)
        ensures
            r@ == spec_series_item_text(*self, 0) + "\n"@,
    {
        let tree = self.keytree();
        let mut s = tree.text();
        proof {
            lemma_render_item(*self, tree.lines@, 0);
        }
        s.append("\n");
        s
    }
}

/// The rendered item trees of a series list, one after another, at base
/// indent `ind`.
pub open spec fn spec_series_blocks_text(items: Seq<SeriesItem>, ind: nat) -> Seq<char>
    decreases items.len(),
{
    if items.len() == 0 {
        Seq::empty()
    } else {
        spec_series_blocks_text(items.drop_last(), ind) + spec_series_item_text(items.last(), ind)
    }
}

/// A line list made of consecutive thirteen-line item trees renders to
/// the item texts, one after another.
proof fn lemma_render_blocks(lines: Seq<(usize, String)>, items: Seq<SeriesItem>, ind: int)
    requires
        0 <= ind,
        lines.len() == 13 * items.len(),
        forall|i: int|
            0 <= i < items.len() ==> spec_series_item_tree(
                items[i],
                #[trigger] lines.subrange(13 * i, 13 * i + 13),
                ind,
            ),
    ensures
        spec_render(lines) == spec_series_blocks_text(items, ind as nat),
    decreases items.len(),
{
    if items.len() == 0 {
        assert(lines =~= Seq::<(usize, String)>::empty());
    } else {
        let k = items.len() - 1;
        let front = lines.take(13 * k);
        let block = lines.skip(13 * k);
        assert(lines =~= front + block);
        lemma_render_concat(front, block);
        assert(block =~= lines.subrange(13 * k, 13 * k + 13));
        lemma_render_item(items[k], block, ind);
        assert forall|i: int| 0 <= i < items.drop_last().len() implies spec_series_item_tree(
            items.drop_last()[i],
            #[trigger] front.subrange(13 * i, 13 * i + 13),
            ind,
        ) by {
            assert(front.subrange(13 * i, 13 * i + 13) =~= lines.subrange(13 * i, 13 * i + 13));
        }
        lemma_render_blocks(front, items.drop_last(), ind);
    }
}

impl Series {
    /// The response rendered as `key: value` text, closed by a newline:
    /// the head lines, then every series item tree, in order.
    pub fn display_string(&self) -> (r: String)
        ensures
            r@ == spec_series_head_text(*self) + spec_line(1, spec_key_line("series_items"@))
                + spec_series_blocks_text(self.seriess.0@, 2) + "\n"@,
    {
        let tree = self.keytree();
        let mut s = tree.text();
        proof {
            lemma_series_text(*self, tree.lines@);
        }
        s.append("\n");
        s
    }
}

/// The first three rendered lines of a series response: the `series` key
/// and the realtime window.
pub open spec fn spec_series_head_text(s: Series) -> Seq<char> {
    spec_line(0, spec_key_line("series"@)) + spec_line(
        1,
        spec_keyvalue_line("realtime_start"@, s.realtime_start@),
    ) + spec_line(1, spec_keyvalue_line("realtime_end"@, s.realtime_end@))
}

proof fn lemma_series_text(s: Series, lines: Seq<(usize, String)>)
    requires
        spec_series_tree(s, lines),
    ensures
        spec_render(lines) == spec_series_head_text(s) + spec_line(
            1,
            spec_key_line("series_items"@),
        ) + spec_series_blocks_text(s.seriess.0@, 2),
{
    let head = lines.take(4);
    let tail = lines.skip(4);
    assert(lines =~= head + tail);
    lemma_render_concat(head, tail);
    assert(spec_render(head) =~= spec_series_head_text(s) + spec_line(
        1,
        spec_key_line("series_items"@),
    )) by {
        reveal_with_fuel(spec_render, 6);
        assert(head.drop_last().drop_last().drop_last().drop_last() =~= lines.take(0));
        assert(lines.take(0).len() == 0);
        assert(head.drop_last().drop_last().drop_last() =~= lines.take(1));
        assert(head.drop_last().drop_last() =~= lines.take(2));
        assert(head.drop_last() =~= lines.take(3));
    }
    assert forall|i: int| 0 <= i < s.seriess.0@.len() implies spec_series_item_tree(
        s.seriess.0@[i],
        #[trigger] tail.subrange(13 * i, 13 * i + 13),
        2,
    ) by {
        assert(tail.subrange(13 * i, 13 * i + 13) =~= lines.subrange(4 + 13 * i, 17 + 13 * i));
    }
    lemma_render_blocks(tail, s.seriess.0@, 2);
    assert(spec_render(lines) =~= spec_series_head_text(s) + spec_line(
        1,
        spec_key_line("series_items"@),
    ) + spec_series_blocks_text(s.seriess.0@, 2));
}

/// What one rendered category looks like.
pub open spec fn spec_category_display(c: Category) -> Seq<char> {
    "id: "@ + spec_decimal(c.id as nat) + "\n"@ + "name: "@ + c.name@ + "\n"@ + "parent_id: "@
        + spec_decimal(c.parent_id as nat) + "\n"@ + "notes: "@ + spec_opt_debug(c.notes) + "\n"@
}

impl Category {
    /// Renders the category, one field per line.
    pub fn display_string(&self) -> (r: String)
        ensures
            r@ == spec_category_display(*self),
    {
        let r = "id: ".to_owned().concat(usize_to_string(self.id).as_str()).concat("\n").concat(
            "name: ",
        ).concat(self.name.as_str()).concat("\n").concat("parent_id: ").concat(
            usize_to_string(self.parent_id).as_str(),
        ).concat("\n").concat("notes: ").concat(opt_debug(&self.notes).as_str()).concat("\n");
        proof {
            assert(r@ =~= spec_category_display(*self));
        }
        r
    }
}

/// What a rendered category list looks like: each category's rendering,
/// one after the other.
pub open spec fn spec_categories_display(cats: Seq<Category>) -> Seq<char>
    decreases cats.len(),
{
    if cats.len() == 0 {
        Seq::empty()
    } else {
        spec_categories_display(cats.drop_last()) + spec_category_display(cats.last())
    }
}

impl Categories {
    /// Renders every category in order.
    pub fn display_string(&self) -> (r: String)
        ensures
            r@ == spec_categories_display(self.categories@),
    {
        let mut s = String::new();
        let mut i: usize = 0;
        proof {
            assert(self.categories@.take(0) =~= Seq::<Category>::empty());
        }
        while i < self.categories.len()
            invariant
                i <= self.categories@.len(),
                s@ == spec_categories_display(self.categories@.take(i as int)),
            decreases self.categories@.len() - i,
        {
            s.append(self.categories[i].display_string().as_str());
            proof {
                assert(self.categories@.take(i + 1).drop_last() =~= self.categories@.take(
                    i as int,
                ));
                assert(self.categories@.take(i + 1).last() == self.categories@[i as int]);
            }
            i = i + 1;
        }
        proof {
            assert(self.categories@.take(self.categories@.len() as int) =~= self.categories@);
        }
        s
    }
}

/// What one rendered tag looks like.
pub open spec fn spec_tag_display(t: Tag) -> Seq<char> {
    "name: "@ + t.name@ + "\n"@ + "notes: "@ + spec_opt_debug(t.notes) + "\n"@ + "series_count: "@
        + spec_int_decimal(t.series_count as int)
}

impl Tag {
    /// Renders the tag's name, notes and series count.
    pub fn display_string(&self) -> (r: String)
        ensures
            r@ == spec_tag_display(*self),
    {
        let r = "name: ".to_owned().concat(self.name.as_str()).concat("\n").concat(
            "notes: ",
        ).concat(opt_debug(&self.notes).as_str()).concat("\n").concat("series_count: ").concat(
            isize_to_string(self.series_count).as_str(),
        );
        proof {
            assert(r@ =~= spec_tag_display(*self));
        }
        r
    }
}

/// What one rendered tag item looks like.
pub open spec fn spec_tag_item_display(t: TagItem) -> Seq<char> {
    "name: "@ + t.name@ + "\n"@ + "group_id: "@ + t.group_id@ + "\n"@ + "notes: "@
        + spec_opt_debug(t.notes) + "\n"@
}

impl TagItem {
    /// Renders the tag item's name, group and notes.
    pub fn display_string(&self) -> (r: String)
        ensures
            r@ == spec_tag_item_display(*self),
    {
        let r = "name: ".to_owned().concat(self.name.as_str()).concat("\n").concat(
            "group_id: ",
        ).concat(self.group_id.as_str()).concat("\n").concat("notes: ").concat(
            opt_debug(&self.notes).as_str(),
        ).concat("\n");
        proof {
            assert(r@ =~= spec_tag_item_display(*self));
        }
        r
    }
}

/// What the rendered tag collection looks like: each tag numbered by its
/// position, with a blank line after each.
pub open spec fn spec_tags_display(tags: Seq<Tag>) -> Seq<char>
    decreases tags.len(),
{
    if tags.len() == 0 {
        Seq::empty()
    } else {
        spec_tags_display(tags.drop_last()) + spec_decimal((tags.len() - 1) as nat) + "\n"@
            + spec_tag_display(tags.last()) + "\n"@ + "\n"@
    }
}

impl Tags {
    /// Renders every tag, numbered, separated by blank lines.
    pub fn display_string(&self) -> (r: String)
        ensures
            r@ == spec_tags_display(self.tags@),
    {
        let mut s = String::new();
        let mut i: usize = 0;
        proof {
            assert(self.tags@.take(0) =~= Seq::<Tag>::empty());
        }
        while i < self.tags.len()
            invariant
                i <= self.tags@.len(),
                s@ == spec_tags_display(self.tags@.take(i as int)),
            decreases self.tags@.len() - i,
        {
            s.append(usize_to_string(i).as_str());
            push_char(&mut s, '\n');
            s.append(self.tags[i].display_string().as_str());
            push_char(&mut s, '\n');
            push_char(&mut s, '\n');
            proof {
                assert(self.tags@.take(i + 1).drop_last() =~= self.tags@.take(i as int));
                assert(self.tags@.take(i + 1).last() == self.tags@[i as int]);
                assert("\n"@ =~= seq!['\n']) by {
                    reveal_strlit("\n");
                }
                assert(s@ =~= spec_tags_display(self.tags@.take(i + 1)));
            }
            i = i + 1;
        }
        proof {
            assert(self.tags@.take(self.tags@.len() as int) =~= self.tags@);
        }
        s
    }
}

/// What the rendered series-tags response looks like: each tag item
/// numbered by its position.
pub open spec fn spec_series_tags_display(tags: Seq<TagItem>) -> Seq<char>
    decreases tags.len(),
{
    if tags.len() == 0 {
        Seq::empty()
    } else {
        spec_series_tags_display(tags.drop_last()) + spec_decimal((tags.len() - 1) as nat) + "\n"@
            + spec_tag_item_display(tags.last()) + "\n"@
    }
}

impl SeriesTags {
    /// Renders every tag item, numbered.
    pub fn display_string(&self) -> (r: String)
        ensures
            r@ == spec_series_tags_display(self.tags@),
    {
        let mut s = String::new();
        let mut i: usize = 0;
        proof {
            assert(self.tags@.take(0) =~= Seq::<TagItem>::empty());
        }
        while i < self.tags.len()
            invariant
                i <= self.tags@.len(),
                s@ == spec_series_tags_display(self.tags@.take(i as int)),
            decreases self.tags@.len() - i,
        {
            s.append(usize_to_string(i).as_str());
            push_char(&mut s, '\n');
            s.append(self.tags[i].display_string().as_str());
            push_char(&mut s, '\n');
            proof {
                assert(self.tags@.take(i + 1).drop_last() =~= self.tags@.take(i as int));
                assert(self.tags@.take(i + 1).last() == self.tags@[i as int]);
                assert("\n"@ =~= seq!['\n']) by {
                    reveal_strlit("\n");
                }
                assert(s@ =~= spec_series_tags_display(self.tags@.take(i + 1)));
            }
            i = i + 1;
        }
        proof {
            assert(self.tags@.take(self.tags@.len() as int) =~= self.tags@);
        }
        s
    }
}

/// What the rendered category-series response looks like: each series
/// numbered by its position, rendered as its `key: value` tree.
pub open spec fn spec_category_series_display(items: Seq<SeriesItem>) -> Seq<char>
    decreases items.len(),
{
    if items.len() == 0 {
        Seq::empty()
    } else {
        spec_category_series_display(items.drop_last()) + spec_decimal((items.len() - 1) as nat)
            + "\n"@ + spec_series_item_text(items.last(), 0) + "\n"@ + "\n"@
    }
}

impl CategorySeries {
    /// Renders every series, numbered, as `key: value` trees.
    pub fn display_string(&self) -> (r: String)
        ensures
            r@ == spec_category_series_display(self.seriess.0@),
    {
        let mut s = String::new();
        let mut i: usize = 0;
        proof {
            assert(self.seriess.0@.take(0) =~= Seq::<SeriesItem>::empty());
        }
        while i < self.seriess.0.len()
            invariant
                i <= self.seriess.0@.len(),
                s@ == spec_category_series_display(self.seriess.0@.take(i as int)),
            decreases self.seriess.0@.len() - i,
        {
            s.append(usize_to_string(i).as_str());
            push_char(&mut s, '\n');
            s.append(self.seriess.0[i].display_string().as_str());
            push_char(&mut s, '\n');
            proof {
                assert(self.seriess.0@.take(i + 1).drop_last() =~= self.seriess.0@.take(i as int));
                assert(self.seriess.0@.take(i + 1).last() == self.seriess.0@[i as int]);
                assert("\n"@ =~= seq!['\n']) by {
                    reveal_strlit("\n");
                }
                assert(s@ =~= spec_category_series_display(self.seriess.0@.take(i + 1)));
            }
            i = i + 1;
        }
        proof {
            assert(self.seriess.0@.take(self.seriess.0@.len() as int) =~= self.seriess.0@);
        }
        s
    }
}

/// What the rendered tags-series response looks like: the same numbered
/// series trees.
pub open spec fn spec_tags_series_display(items: Seq<SeriesItem>) -> Seq<char> {
    spec_category_series_display(items)
}

impl TagsSeries {
    /// Renders every series, numbered, as `key: value` trees.
    pub fn display_string(&self) -> (r: String)
        ensures
            r@ == spec_tags_series_display(self.seriess.0@),
    {
        let mut s = String::new();
        let mut i: usize = 0;
        proof {
            assert(self.seriess.0@.take(0) =~= Seq::<SeriesItem>::empty());
        }
        while i < self.seriess.0.len()
            invariant
                i <= self.seriess.0@.len(),
                s@ == spec_category_series_display(self.seriess.0@.take(i as int)),
            decreases self.seriess.0@.len() - i,
        {
            s.append(usize_to_string(i).as_str());
            push_char(&mut s, '\n');
            s.append(self.seriess.0[i].display_string().as_str());
            push_char(&mut s, '\n');
            proof {
                assert(self.seriess.0@.take(i + 1).drop_last() =~= self.seriess.0@.take(i as int));
                assert(self.seriess.0@.take(i + 1).last() == self.seriess.0@[i as int]);
                assert("\n"@ =~= seq!['\n']) by {
                    reveal_strlit("\n");
                }
                assert(s@ =~= spec_category_series_display(self.seriess.0@.take(i + 1)));
            }
            i = i + 1;
        }
        proof {
            assert(self.seriess.0@.take(self.seriess.0@.len() as int) =~= self.seriess.0@);
        }
        s
    }
}

/// What one rendered observation looks like.
pub open spec fn spec_observation_display(o: Observation) -> Seq<char> {
    o.date@ + ", "@ + o.value@
}

impl Observation {
    /// Renders the observation as `date, value`.
    pub fn display_string(&self) -> (r: String)
        ensures
            r@ == spec_observation_display(*self),
    {
        let r = self.date.clone().concat(", ").concat(self.value.as_str());
        proof {
            assert(r@ =~= spec_observation_display(*self));
        }
        r
    }
}

/// What the rendered observation list looks like: one observation per
/// line, with no newline after the last.
pub open spec fn spec_observations_display(obs: Seq<Observation>) -> Seq<char>
    decreases obs.len(),
{
    if obs.len() == 0 {
        Seq::empty()
    } else if obs.len() == 1 {
        spec_observation_display(obs[0])
    } else {
        spec_observations_display(obs.drop_last()) + "\n"@ + spec_observation_display(obs.last())
    }
}

impl Observations {
    /// Renders every observation, one per line.
    pub fn display_string(&self) -> (r: String)
        ensures
            r@ == spec_observations_display(self.0@),
    {
        let mut s = String::new();
        let mut i: usize = 0;
        proof {
            assert(self.0@.take(0) =~= Seq::<Observation>::empty());
        }
        while i < self.0.len()
            invariant
                i <= self.0@.len(),
                s@ == spec_observations_display(self.0@.take(i as int)),
            decreases self.0@.len() - i,
        {
            if i > 0 {
                s.append("\n");
            }
            s.append(self.0[i].display_string().as_str());
            proof {
                assert(self.0@.take(i + 1).drop_last() =~= self.0@.take(i as int));
                assert(self.0@.take(i + 1).last() == self.0@[i as int]);
                if i == 0 {
                    assert(self.0@.take(1)[0] == self.0@[0]);
                }
                assert(s@ =~= spec_observations_display(self.0@.take(i + 1)));
            }
            i = i + 1;
        }
        proof {
            assert(self.0@.take(self.0@.len() as int) =~= self.0@);
        }
        s
    }
}

/// What the rendered series collection looks like: each series numbered
/// by a `series:` line and rendered one indent level deeper.
pub open spec fn spec_series_items_display(items: Seq<SeriesItem>) -> Seq<char>
    decreases items.len(),
{
    if items.len() == 0 {
        Seq::empty()
    } else {
        spec_series_items_display(items.drop_last()) + spec_line(
            0,
            spec_keyvalue_line("series"@, spec_decimal((items.len() - 1) as nat)),
        ) + spec_series_item_text(items.last(), 1)
    }
}

impl SeriesItems {
    /// Renders every series, numbered, one indent level deep.
    pub fn display_string(&self) -> (r: String)
        ensures
            r@ == spec_series_items_display(self.0@),
    {
        let mut s = String::new();
        let mut i: usize = 0;
        proof {
            assert(self.0@.take(0) =~= Seq::<SeriesItem>::empty());
        }
        while i < self.0.len()
            invariant
                i <= self.0@.len(),
                s@ == spec_series_items_display(self.0@.take(i as int)),
            decreases self.0@.len() - i,
        {
            let mut t = KeyTreeString::new();
            let idx = usize_to_string(i);
            t.push_keyvalue(0, "series", idx.as_str());
            let ghost head = t.lines@;
            let item_tree = self.0[i].keytree();
            let ghost item_lines = item_tree.lines@;
            proof {
                assert forall|j: int| 0 <= j < item_lines.len() implies 1 + (
                #[trigger] item_lines[j]).0 <= usize::MAX by {}
            }
            t.push_keytree(1, item_tree);
            s.append(t.text().as_str());
            proof {
                let shifted = t.lines@.skip(1);
                assert(t.lines@ =~= head + shifted);
                lemma_render_concat(head, shifted);
                assert(spec_render(head) =~= spec_line(
                    0,
                    spec_keyvalue_line("series"@, spec_decimal(i as nat)),
                )) by {
                    reveal_with_fuel(spec_render, 3);
                    assert(head.drop_last() =~= t.lines@.take(0));
                    assert(t.lines@.take(0).len() == 0);
                    assert(head.last() == t.lines@[0]);
                }
                assert forall|m: int| 0 <= m < 13 implies (#[trigger] shifted[m]).0 == 1
                    + item_lines[m].0 && shifted[m].1 == item_lines[m].1 by {
                    assert(t.lines@[head.len() + m].0 == 1 + item_lines[m].0);
                    assert(t.lines@[head.len() + m].1 == item_lines[m].1);
                    assert(shifted[m] == t.lines@[1 + m]);
                }
                assert(spec_series_item_tree(self.0@[i as int], shifted, 1));
                lemma_render_item(self.0@[i as int], shifted, 1);
                assert(self.0@.take(i + 1).drop_last() =~= self.0@.take(i as int));
                assert(self.0@.take(i + 1).last() == self.0@[i as int]);
                assert(s@ =~= spec_series_items_display(self.0@.take(i + 1)));
            }
            i = i + 1;
        }
        proof {
            assert(self.0@.take(self.0@.len() as int) =~= self.0@);
        }
        s
    }
}

} // verus!
