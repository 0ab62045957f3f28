//! The model-specific-register pane: categorized register entries (read by
//! the platform layer and handed in as plain values) with scroll and search
//! state, and the mapping from entries to searchable line offsets.

use vstd::prelude::*;
use crate::scroll::ScrollHints;
use crate::search::SearchState;

verus! {

/// One register: its name, address, and the value read for it, if any.
pub struct MsrEntry {
    pub name: &'static str,
    pub address: u32,
    pub value: Option<u64>,
}

/// A titled group of registers.
pub struct MsrCategory {
    pub name: &'static str,
    pub entries: Vec<MsrEntry>,
}

/// Rendered lines a category occupies: a header line, one line per entry,
/// and a blank separator line.
pub open spec fn category_lines(c: MsrCategory) -> int {
    2 + c.entries@.len() as int
}

/// Rendered lines of all categories from position `i` on.
pub open spec fn total_lines_from(cats: Seq<MsrCategory>, i: int) -> int
    decreases cats.len() - i,
{
    if i < 0 || i >= cats.len() {
        0
    } else {
        category_lines(cats[i]) + total_lines_from(cats, i + 1)
    }
}

/// The searchable items of one category's entries from entry `j` on, when
/// the first entry sits at line `line`.
pub open spec fn entry_items_from(
    entries: Seq<MsrEntry>,
    line: int,
    j: int,
) -> Seq<(&'static str, u16)>
    decreases entries.len() - j,
{
    if j < 0 || j >= entries.len() {
        Seq::empty()
    } else {
        seq![(entries[j].name, (line + j) as u16)] + entry_items_from(entries, line, j + 1)
    }
}

/// The searchable items of the categories from position `i` on, when
/// category `i`'s header sits at line `line`: headers and separator lines
/// occupy line slots but are not searchable.
pub open spec fn category_items_from(
    cats: Seq<MsrCategory>,
    line: int,
    i: int,
) -> Seq<(&'static str, u16)>
    decreases cats.len() - i,
{
    if i < 0 || i >= cats.len() {
        Seq::empty()
    } else {
        entry_items_from(cats[i].entries@, line + 1, 0) + category_items_from(
            cats,
            line + category_lines(cats[i]),
            i + 1,
        )
    }
}

/// The MSR pane: its categorized entries, scroll state and search state.
pub struct MsrPane {
    pub categories: Vec<MsrCategory>,
    pub scroll: ScrollHints,
    pub search: SearchState,
}

impl MsrPane {
    pub open spec fn spec_categories(&self) -> Seq<MsrCategory> {
        self.categories@
    }

    /// The pane's rendered line count stays addressable by `u16` offsets.
    pub open spec fn wf(&self) -> bool {
        total_lines_from(self.spec_categories(), 0) <= u16::MAX && self.search.wf()
            && self.scroll.wf()
    }

    pub fn new(categories: Vec<MsrCategory>) -> (r: Self)
        requires
            total_lines_from(categories@, 0) <= u16::MAX,
        ensures
            r.spec_categories() == categories@,
            r.search.matches@.len() == 0 && r.search.current_match == 0,
            r.scroll.y_offset == 0 && r.scroll.max_offset == 0,
            r.wf(),
    {
        MsrPane { categories, scroll: ScrollHints::new(), search: SearchState::new() }
    }

    pub fn categories(&self) -> (r: &Vec<MsrCategory>)
        ensures
            r@ == self.spec_categories(),
    {
        &self.categories
    }

    pub fn search_state(&self) -> (r: &SearchState)
        ensures
            *r == self.search,
    {
        &self.search
    }

    /// The pane's searchable index: each entry's name with the line offset
    /// it is rendered at, category headers and separators skipped but
    /// accounted for so offsets line up with rendered rows.
    pub fn search_items(&self) -> (r: Vec<(&'static str, u16)>)
        requires
            self.wf(),
        ensures
            r@ == category_items_from(self.spec_categories(), 0, 0),
    {
        let ghost cats = self.categories@;
        let mut items: Vec<(&'static str, u16)> = Vec::new();
        let mut line: u16 = 0;
        let ncats = self.categories.len();
        let mut i: usize = 0;
        while i < ncats
            invariant
                i <= ncats,
                ncats == cats.len(),
                cats == self.categories@,
                self.wf(),
                line == total_lines_from(cats, 0) - total_lines_from(cats, i as int),
                category_items_from(cats, 0, 0) == items@ + category_items_from(
                    cats,
                    line as int,
                    i as int,
                ),
            decreases ncats - i,
        {
            proof {
                lemma_total_lines_bounds(cats, i as int);
                lemma_total_lines_bounds(cats, i + 1);
            }
            let ghost line_at_cat = line;
            let ghost items_at_cat = items@;
            // header line
            line = line + 1;
            let nentries = self.categories[i].entries.len();
            let ghost lent = line as int;
            let mut j: usize = 0;
            while j < nentries
                invariant
                    j <= nentries,
                    i < ncats,
                    ncats == cats.len(),
                    cats == self.categories@,
                    nentries == cats[i as int].entries@.len(),
                    line == lent + j,
                    lent + nentries + 1 <= u16::MAX,
                    items@.len() == items_at_cat.len() + j,
                    items@.take(items_at_cat.len() as int) == items_at_cat,
                    entry_items_from(cats[i as int].entries@, lent, 0) == items@.skip(
                        items_at_cat.len() as int,
                    ) + entry_items_from(cats[i as int].entries@, lent, j as int),
                decreases nentries - j,
            {
                items.push((self.categories[i].entries[j].name, line));
                line = line + 1;
                j = j + 1;
                proof {
                    assert(items@.take(items_at_cat.len() as int) =~= items_at_cat);
                    assert(entry_items_from(cats[i as int].entries@, lent, 0) =~= items@.skip(
                        items_at_cat.len() as int,
                    ) + entry_items_from(cats[i as int].entries@, lent, j as int));
                }
            }
            // blank separator line
            line = line + 1;
            i = i + 1;
            proof {
                assert(entry_items_from(cats[i - 1].entries@, lent, nentries as int) =~= Seq::<(
                    &'static str,
                    u16,
                )>::empty());
                assert(items@ =~= items_at_cat + items@.skip(items_at_cat.len() as int));
                assert(items@ =~= items_at_cat + entry_items_from(cats[i - 1].entries@, lent, 0));
                assert(category_items_from(cats, line_at_cat as int, i - 1) == entry_items_from(
                    cats[i - 1].entries@,
                    lent,
                    0,
                ) + category_items_from(cats, line as int, i as int));
                assert(category_items_from(cats, 0, 0) =~= items@ + category_items_from(
                    cats,
                    line as int,
                    i as int,
                ));
            }
        }
        proof {
            assert(category_items_from(cats, line as int, ncats as int) =~= Seq::<(
                &'static str,
                u16,
            )>::empty());
            assert(items@ =~= category_items_from(cats, 0, 0));
        }
        items
    }
}

/// Every partial sum of category line counts stays within the total.
proof fn lemma_total_lines_bounds(cats: Seq<MsrCategory>, i: int)
    requires
        0 <= i <= cats.len(),
    ensures
        0 <= total_lines_from(cats, i) <= total_lines_from(cats, 0),
        i < cats.len() ==> category_lines(cats[i]) <= total_lines_from(cats, i),
    decreases i,
{
    lemma_total_lines_nonneg(cats, i);
    if i > 0 {
        lemma_total_lines_bounds(cats, i - 1);
    }
    if i < cats.len() {
        lemma_total_lines_nonneg(cats, i + 1);
    }
}

proof fn lemma_total_lines_nonneg(cats: Seq<MsrCategory>, i: int)
    ensures
        total_lines_from(cats, i) >= 0,
    decreases cats.len() - i,
{
    if 0 <= i < cats.len() {
        lemma_total_lines_nonneg(cats, i + 1);
    }
}

} // verus!
