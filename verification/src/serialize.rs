//! Rendering responses as indented `key: value` text.
//!
//! A [`KeyTreeString`] is a list of lines, each an indent level and a
//! content string; rendering writes four spaces per indent level before
//! the content and a newline after it.  The series types build their
//! trees here line by line, with the exact lines stated in the contracts.

use vstd::prelude::*;

use crate::response::{Series, SeriesItem, SeriesItems};
use crate::text::push_char;
use vstd::string::StringExecFns;

verus! {

/// Four spaces for each indent level.
pub open spec fn spec_spaces(n: nat) -> Seq<char>
    decreases n,
{
    if n == 0 {
        Seq::empty()
    } else {
        spec_spaces((n - 1) as nat) + seq![' ', ' ', ' ', ' ']
    }
}

/// One rendered line: indent, content, newline.
pub open spec fn spec_line(ind: nat, content: Seq<char>) -> Seq<char> {
    spec_spaces(ind) + content + seq!['\n']
}

/// The whole rendered text, line by line.
pub open spec fn spec_render(lines: Seq<(usize, String)>) -> Seq<char>
    decreases lines.len(),
{
    if lines.len() == 0 {
        Seq::empty()
    } else {
        spec_render(lines.drop_last()) + spec_line(lines.last().0 as nat, lines.last().1@)
    }
}

/// The content of a bare key line.
pub open spec fn spec_key_line(key: Seq<char>) -> Seq<char> {
    key + seq![':']
}

/// The content of a `key: value` line.
pub open spec fn spec_keyvalue_line(key: Seq<char>, value: Seq<char>) -> Seq<char> {
    key + seq![':', ' '] + value
}

/// An indented `key: value` text under construction.
#[derive(Debug)]
pub struct KeyTreeString {
    pub lines: Vec<(usize, String)>,
}

impl KeyTreeString {
    /// An empty tree.
    pub fn new() -> (r: KeyTreeString)
        ensures
            r.lines@.len() == 0,
    {
        KeyTreeString { lines: Vec::new() }
    }

    /// Appends a bare key line at the given indent.
    pub fn push_key(&mut self, indent: usize, key: &str)
        ensures
            final(self).lines@.len() == old(self).lines@.len() + 1,
            final(self).lines@.drop_last() == old(self).lines@,
            final(self).lines@.last().0 == indent,
            final(self).lines@.last().1@ == spec_key_line(key@),
    {
        let mut content = key.to_owned();
        push_char(&mut content, ':');
        self.lines.push((indent, content));
        proof {
            assert(final(self).lines@.drop_last() =~= old(self).lines@);
        }
    }

    /// Appends a `key: value` line at the given indent.
    pub fn push_keyvalue(&mut self, indent: usize, key: &str, value: &str)
        ensures
            final(self).lines@.len() == old(self).lines@.len() + 1,
            final(self).lines@.drop_last() == old(self).lines@,
            final(self).lines@.last().0 == indent,
            final(self).lines@.last().1@ == spec_keyvalue_line(key@, value@),
    {
        let mut content = key.to_owned();
        push_char(&mut content, ':');
        push_char(&mut content, ' ');
        let content = content.concat(value);
        self.lines.push((indent, content));
        proof {
            assert(final(self).lines@.drop_last() =~= old(self).lines@);
            assert(final(self).lines@.last().1@ =~= spec_keyvalue_line(key@, value@));
        }
    }

    /// Appends another tree, shifted right by the given indent.
    pub fn push_keytree(&mut self, indent: usize, other: KeyTreeString)
        requires
            forall|j: int|
                0 <= j < other.lines@.len() ==> indent + (#[trigger] other.lines@[j]).0
                    <= usize::MAX,
        ensures
            final(self).lines@.len() == old(self).lines@.len() + other.lines@.len(),
            final(self).lines@.take(old(self).lines@.len() as int) == old(self).lines@,
            forall|j: int|
                0 <= j < other.lines@.len() ==> {
                    &&& (#[trigger] final(self).lines@[old(self).lines@.len() + j]).0 == indent
                        + other.lines@[j].0
                    &&& final(self).lines@[old(self).lines@.len() + j].1 == other.lines@[j].1
                },
    {
        let ghost base = self.lines@.len();
        let mut i: usize = 0;
        let other_lines = other.lines;
        while i < other_lines.len()
            invariant
                i <= other_lines@.len(),
                other_lines@ == other.lines@,
                self.lines@.len() == base + i,
                self.lines@.take(base as int) == old(self).lines@,
                base == old(self).lines@.len(),
                forall|j: int|
                    0 <= j < other_lines@.len() ==> indent + (#[trigger] other_lines@[j]).0
                        <= usize::MAX,
                forall|j: int|
                    0 <= j < i ==> {
                        &&& (#[trigger] self.lines@[base + j]).0 == indent + other_lines@[j].0
                        &&& self.lines@[base + j].1 == other_lines@[j].1
                    },
            decreases other_lines@.len() - i,
        {
            let line = &other_lines[i];
            self.lines.push((indent + line.0, line.1.clone()));
            proof {
                assert(self.lines@.take(base as int) =~= old(self).lines@);
            }
            i = i + 1;
        }
    }

    /// Renders the tree: four spaces per indent level, the content, a
    /// newline, line after line.
    pub fn text(&self) -> (r: String)
        ensures
            r@ == spec_render(self.lines@),
    {
        let mut s = String::new();
        let mut i: usize = 0;
        proof {
            assert(self.lines@.take(0) =~= Seq::<(usize, String)>::empty());
        }
        while i < self.lines.len()
            invariant
                i <= self.lines@.len(),
                s@ == spec_render(self.lines@.take(i as int)),
            decreases self.lines@.len() - i,
        {
            let line = &self.lines[i];
            let mut k: usize = 0;
            let ghost mid = s@;
            while k < line.0
                invariant
                    k <= line.0,
                    s@ == mid + spec_spaces(k as nat),
                decreases line.0 - k,
            {
                s.append("    ");
                proof {
                    reveal_strlit("    ");
                    assert("    "@ =~= seq![' ', ' ', ' ', ' ']);
                    assert(s@ =~= mid + spec_spaces((k + 1) as nat));
                }
                k = k + 1;
            }
            s.append(line.1.as_str());
            push_char(&mut s, '\n');
            proof {
                assert(self.lines@.take(i + 1).drop_last() =~= self.lines@.take(i as int));
                assert(self.lines@.take(i + 1).last() == self.lines@[i as int]);
                assert(s@ =~= spec_render(self.lines@.take(i + 1)));
            }
            i = i + 1;
        }
        proof {
            assert(self.lines@.take(self.lines@.len() as int) =~= self.lines@);
        }
        s
    }
}

/// The thirteen lines of one rendered series item, at base indent `ind`:
/// a `series_item` key and one `key: value` line per declared field, in
/// declaration order, with the notes left to the JSON data.
pub open spec fn spec_series_item_tree(s: SeriesItem, lines: Seq<(usize, String)>, ind: int) -> bool {
    &&& lines.len() == 13
    &&& lines[0].0 == ind && lines[0].1@ == spec_key_line("series_item"@)
    &&& lines[1].0 == ind + 1 && lines[1].1@ == spec_keyvalue_line("id"@, s.id@)
    &&& lines[2].0 == ind + 1 && lines[2].1@ == spec_keyvalue_line(
        "realtime_start"@,
        s.realtime_start@,
    )
    &&& lines[3].0 == ind + 1 && lines[3].1@ == spec_keyvalue_line(
        "realtime_end"@,
        s.realtime_end@,
    )
    &&& lines[4].0 == ind + 1 && lines[4].1@ == spec_keyvalue_line("title"@, s.title@)
    &&& lines[5].0 == ind + 1 && lines[5].1@ == spec_keyvalue_line(
        "observation_start"@,
        s.observation_start@,
    )
    &&& lines[6].0 == ind + 1 && lines[6].1@ == spec_keyvalue_line(
        "observation_end"@,
        s.observation_end@,
    )
    &&& lines[7].0 == ind + 1 && lines[7].1@ == spec_keyvalue_line("frequency"@, s.frequency@)
    &&& lines[8].0 == ind + 1 && lines[8].1@ == spec_keyvalue_line("units"@, s.units@)
    &&& lines[9].0 == ind + 1 && lines[9].1@ == spec_keyvalue_line("units_short"@, s.units_short@)
    &&& lines[10].0 == ind + 1 && lines[10].1@ == spec_keyvalue_line(
        "seasonal_adjustment"@,
        s.seasonal_adjustment@,
    )
    &&& lines[11].0 == ind + 1 && lines[11].1@ == spec_keyvalue_line(
        "last_updated"@,
        s.last_updated@,
    )
    &&& lines[12].0 == ind + 1 && lines[12].1@ == spec_keyvalue_line(
        "notes"@,
        "(see JSON data for notes)"@,
    )
}

impl SeriesItem {
    /// The item as an indented `key: value` tree.
    pub fn keytree(&self) -> (r: KeyTreeString)
        ensures
            spec_series_item_tree(*self, r.lines@, 0),
    {
        let mut s = KeyTreeString::new();
        s.push_key(0, "series_item");
        s.push_keyvalue(1, "id", self.id.as_str());
        s.push_keyvalue(1, "realtime_start", self.realtime_start.as_str());
        s.push_keyvalue(1, "realtime_end", self.realtime_end.as_str());
        s.push_keyvalue(1, "title", self.title.as_str());
        s.push_keyvalue(1, "observation_start", self.observation_start.as_str());
        s.push_keyvalue(1, "observation_end", self.observation_end.as_str());
        s.push_keyvalue(1, "frequency", self.frequency.as_str());
        s.push_keyvalue(1, "units", self.units.as_str());
        s.push_keyvalue(1, "units_short", self.units_short.as_str());
        s.push_keyvalue(1, "seasonal_adjustment", self.seasonal_adjustment.as_str());
        s.push_keyvalue(1, "last_updated", self.last_updated.as_str());
        s.push_keyvalue(1, "notes", "(see JSON data for notes)");
        s
    }

    /// The item as an indented `key: value` tree.
    pub fn to_keytree(&self) -> (r: KeyTreeString)
        ensures
            spec_series_item_tree(*self, r.lines@, 0),
    {
        self.keytree()
    }
}

/// The lines of one rendered series collection: a `series_items` key,
/// then each item's thirteen lines, one indent level deeper, in order.
pub open spec fn spec_series_items_tree(
    items: Seq<SeriesItem>,
    lines: Seq<(usize, String)>,
) -> bool {
    &&& lines.len() == 1 + 13 * items.len()
    &&& lines[0].0 == 0 && lines[0].1@ == spec_key_line("series_items"@)
    &&& forall|j: int| 0 <= j < lines.len() ==> (#[trigger] lines[j]).0 <= 2
    &&& forall|i: int|
        0 <= i < items.len() ==> spec_series_item_tree(
            items[i],
            #[trigger] lines.subrange(1 + 13 * i, 14 + 13 * i),
            1,
        )
}

impl SeriesItems {
    /// The collection as an indented `key: value` tree.
    pub fn keytree(&self) -> (r: KeyTreeString)
        ensures
            spec_series_items_tree(self.0@, r.lines@),
    {
        let mut s = KeyTreeString::new();
        s.push_key(0, "series_items");
        let mut i: usize = 0;
        while i < self.0.len()
            invariant
                i <= self.0@.len(),
                s.lines@.len() == 1 + 13 * i,
                s.lines@[0].0 == 0 && s.lines@[0].1@ == spec_key_line("series_items"@),
                forall|j: int| 0 <= j < s.lines@.len() ==> (#[trigger] s.lines@[j]).0 <= 2,
                forall|j: int|
                    0 <= j < i ==> spec_series_item_tree(
                        self.0@[j],
                        #[trigger] s.lines@.subrange(1 + 13 * j, 14 + 13 * j),
                        1,
                    ),
            decreases self.0@.len() - i,
        {
            let item_tree = self.0[i].keytree();
            proof {
                assert forall|j: int| 0 <= j < item_tree.lines@.len() implies (
                #[trigger] item_tree.lines@[j]).0 <= 1 by {}
            }
            let ghost before = s.lines@;
            let ghost item_lines = item_tree.lines@;
            s.push_keytree(1, item_tree);
            proof {
                assert forall|m: int| 0 <= m < before.len() implies s.lines@[m] == before[m] by {
                    assert(s.lines@.take(before.len() as int)[m] == s.lines@[m]);
                }
                assert forall|m: int| 0 <= m < s.lines@.len() implies (#[trigger] s.lines@[m]).0
                    <= 2 by {
                    if m < before.len() {
                        assert(s.lines@[m] == before[m]);
                        assert(before[m].0 <= 2);
                    } else {
                        let j = m - before.len();
                        assert(item_lines[j].0 <= 1);
                        assert(s.lines@[before.len() + j].0 == 1 + item_lines[j].0);
                        assert(before.len() + j == m);
                    }
                }
                assert forall|j: int| 0 <= j < i + 1 implies spec_series_item_tree(
                    self.0@[j],
                    #[trigger] s.lines@.subrange(1 + 13 * j, 14 + 13 * j),
                    1,
                ) by {
                    if j < i {
                        assert(s.lines@.subrange(1 + 13 * j, 14 + 13 * j) =~= before.subrange(
                            1 + 13 * j,
                            14 + 13 * j,
                        ));
                    } else {
                        let block = s.lines@.subrange(1 + 13 * j, 14 + 13 * j);
                        assert forall|m: int| 0 <= m < 13 implies block[m] == s.lines@[before.len()
                            + m] by {}
                        assert forall|m: int| 0 <= m < 13 implies (#[trigger] block[m]).0 == 1
                            + item_lines[m].0 && block[m].1 == item_lines[m].1 by {
                            assert(s.lines@[before.len() + m].0 == 1 + item_lines[m].0);
                            assert(s.lines@[before.len() + m].1 == item_lines[m].1);
                        }
                    }
                }
            }
            i = i + 1;
        }
        s
    }

    /// The collection as an indented `key: value` tree.
    pub fn to_keytree(&self) -> (r: KeyTreeString)
        ensures
            spec_series_items_tree(self.0@, r.lines@),
    {
        self.keytree()
    }
}

/// The lines of one rendered series response: a `series` key, the
/// realtime window, then the collection's lines one indent level deeper.
pub open spec fn spec_series_tree(s: Series, lines: Seq<(usize, String)>) -> bool {
    &&& lines.len() == 4 + 13 * s.seriess.0@.len()
    &&& lines[0].0 == 0 && lines[0].1@ == spec_key_line("series"@)
    &&& lines[1].0 == 1 && lines[1].1@ == spec_keyvalue_line("realtime_start"@, s.realtime_start@)
    &&& lines[2].0 == 1 && lines[2].1@ == spec_keyvalue_line("realtime_end"@, s.realtime_end@)
    &&& lines[3].0 == 1 && lines[3].1@ == spec_key_line("series_items"@)
    &&& forall|i: int|
        0 <= i < s.seriess.0@.len() ==> spec_series_item_tree(
            s.seriess.0@[i],
            #[trigger] lines.subrange(4 + 13 * i, 17 + 13 * i),
            2,
        )
}

impl Series {
    /// The response as an indented `key: value` tree.
    pub fn keytree(&self) -> (r: KeyTreeString)
        ensures
            spec_series_tree(*self, r.lines@),
    {
        let mut s = KeyTreeString::new();
        s.push_key(0, "series");
        let ghost l1 = s.lines@;
        s.push_keyvalue(1, "realtime_start", self.realtime_start.as_str());
        let ghost l2 = s.lines@;
        s.push_keyvalue(1, "realtime_end", self.realtime_end.as_str());
        proof {
            assert(s.lines@.len() == 3);
            assert(s.lines@[0] == l1[0] && s.lines@[1] == l2[1]);
            assert(l1.last() == l1[0] && l2.last() == l2[1]);
            assert(s.lines@[0].0 == 0 && s.lines@[0].1@ == spec_key_line("series"@));
        }
        let inner = self.seriess.keytree();
        proof {
            assert forall|j: int| 0 <= j < inner.lines@.len() implies 1 + (
            #[trigger] inner.lines@[j]).0 <= usize::MAX by {}
        }
        let ghost before = s.lines@;
        let ghost inner_lines = inner.lines@;
        s.push_keytree(1, inner);
        proof {
            assert forall|i: int| 0 <= i < self.seriess.0@.len() implies spec_series_item_tree(
                self.seriess.0@[i],
                #[trigger] s.lines@.subrange(4 + 13 * i, 17 + 13 * i),
                2,
            ) by {
                assert forall|m: int| 0 <= m < 3 implies s.lines@[m] == before[m] by {
                    assert(s.lines@.take(before.len() as int)[m] == s.lines@[m]);
                }
                let block = s.lines@.subrange(4 + 13 * i, 17 + 13 * i);
                let inner_block = inner_lines.subrange(1 + 13 * i, 14 + 13 * i);
                assert(spec_series_item_tree(self.seriess.0@[i], inner_block, 1));
                assert forall|m: int| 0 <= m < 13 implies (#[trigger] block[m]).0 == 1
                    + inner_block[m].0 && block[m].1 == inner_block[m].1 by {
                    let n = 1 + 13 * i + m;
                    assert(block[m] == s.lines@[4 + 13 * i + m]);
                    assert(inner_block[m] == inner_lines[n]);
                    assert(s.lines@[before.len() + n].0 == 1 + inner_lines[n].0);
                    assert(s.lines@[before.len() + n].1 == inner_lines[n].1);
                    assert(4 + 13 * i + m == before.len() + n);
                }
            }
            assert forall|m: int| 0 <= m < 3 implies s.lines@[m] == before[m] by {
                assert(s.lines@.take(before.len() as int)[m] == s.lines@[m]);
            }
            assert(s.lines@[before.len() as int + 0].0 == 1 + inner_lines[0].0);
            assert(s.lines@[before.len() as int + 0].1 == inner_lines[0].1);
            assert(s.lines@[3].0 == 1 && s.lines@[3].1@ == spec_key_line("series_items"@));
        }
        s
    }

    /// The response as an indented `key: value` tree.
    pub fn to_keytree(&self) -> (r: KeyTreeString)
        ensures
            spec_series_tree(*self, r.lines@),
    {
        self.keytree()
    }
}

} // verus!
