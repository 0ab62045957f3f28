//! Pane behavior: scrolling and searching over a pane's line-labelled
//! content, and search-match highlighting of a rendered line.

use vstd::prelude::*;
use crate::scroll::ScrollHints;
use crate::search::{
    find_first, first_match_at, has_upper, has_uppercase, lower_of, smart_contains,
    spec_smart_contains, to_lowercase_str, SearchState,
};
use crate::style::{Color, Style};

verus! {

/// Minimum characters before search activates.
pub const MIN_SEARCH_LEN: usize = 2;

/// A run of text in one style, as a pane hands lines to the renderer.
pub struct Span {
    pub text: String,
    pub style: Style,
}

/// `n` spaces.
pub open spec fn spaces(n: int) -> Seq<char>
    decreases n,
{
    if n <= 0 {
        Seq::empty()
    } else {
        spaces(n - 1).push(' ')
    }
}

/// `name` padded with spaces to at least `width` characters.
pub open spec fn padded_name(name: Seq<char>, width: int) -> Seq<char> {
    name + spaces(width - name.len())
}

/// The haystack the highlight position is measured in: the raw name for a
/// case-sensitive query, its lowercase form otherwise.
pub open spec fn highlight_hay(name: Seq<char>, q: Seq<char>) -> Seq<char> {
    if has_upper(q) {
        name
    } else {
        lower_of(name)
    }
}

/// The needle the highlight position is measured with.
pub open spec fn highlight_needle(q: Seq<char>) -> Seq<char> {
    if has_upper(q) {
        q
    } else {
        lower_of(q)
    }
}

/// The style highlighting a matched run.
pub open spec fn spec_highlight_style() -> Style {
    Style {
        fg: Some(Color::Black),
        bg: Some(Color::Yellow),
        bold: false,
        dim: false,
        italic: false,
        underlined: false,
        reversed: false,
        crossed_out: false,
    }
}

/// Whether `highlight_line` falls back to one unhighlighted span.
pub open spec fn highlight_is_plain(name: Seq<char>, q: Option<&str>) -> bool {
    match q {
        None => true,
        Some(qs) => qs@.len() < MIN_SEARCH_LEN || !spec_smart_contains(name, qs@),
    }
}

/// Append `n` spaces to `s`.
fn push_spaces(s: &mut String, n: usize)
    ensures
        final(s)@ == old(s)@ + spaces(n as int),
{
    let mut i: usize = 0;
    while i < n
        invariant
            i <= n,
            s@ == old(s)@ + spaces(i as int),
        decreases n - i,
    {
        s.append(" ");
        proof {
            reveal_strlit(" ");
            assert(s@ =~= old(s)@ + spaces(i + 1));
        }
        i = i + 1;
    }
}

/// The single unhighlighted span: the padded name followed by the suffix.
fn plain_span(name: &str, suffix: &str, name_width: usize) -> (r: Vec<Span>)
    ensures
        r@.len() == 1,
        r@[0].text@ == padded_name(name@, name_width as int) + suffix@,
        r@[0].style == Style::spec_default(),
{
    let mut text = String::new();
    text.append(name);
    let len = name.unicode_len();
    if name_width > len {
        push_spaces(&mut text, name_width - len);
    } else {
        proof {
            assert(spaces(name_width - name@.len()) =~= Seq::<char>::empty());
        }
    }
    text.append(suffix);
    proof {
        assert(text@ =~= padded_name(name@, name_width as int) + suffix@);
    }
    let mut r: Vec<Span> = Vec::new();
    r.push(Span { text, style: Style::new() });
    r
}

/// Lay one searchable line out as styled spans: the name padded to
/// `name_width` with `suffix` appended, and — when the query is long
/// enough and matches the name — the first matched run highlighted.
///
/// The match position is measured in the lowercase forms for an
/// all-lowercase query; when that position does not transfer to the raw
/// name (case folding may change lengths), the line stays unhighlighted.
pub fn highlight_line(name: &str, suffix: &str, name_width: usize, query: Option<&str>) -> (r: Vec<
    Span,
>)
    ensures
        highlight_is_plain(name@, query) ==> r@.len() == 1 && r@[0].text@ == padded_name(
            name@,
            name_width as int,
        ) + suffix@ && r@[0].style == Style::spec_default(),
        !highlight_is_plain(name@, query) ==> exists|pos: int|
            #[trigger] first_match_at(
                highlight_hay(name@, query.unwrap()@),
                highlight_needle(query.unwrap()@),
                pos,
            ) && if pos + highlight_needle(query.unwrap()@).len() <= name@.len() {
                r@.len() == 4 && r@[0].text@ == name@.subrange(0, pos) && r@[0].style
                    == Style::spec_default() && r@[1].text@ == name@.subrange(
                    pos,
                    pos + highlight_needle(query.unwrap()@).len(),
                ) && r@[1].style == spec_highlight_style() && r@[2].text@ == name@.skip(
                    pos + highlight_needle(query.unwrap()@).len(),
                ) + spaces(name_width - name@.len()) && r@[2].style == Style::spec_default()
                    && r@[3].text@ == suffix@ && r@[3].style == Style::spec_default()
            } else {
                r@.len() == 1 && r@[0].text@ == padded_name(name@, name_width as int) + suffix@
                    && r@[0].style == Style::spec_default()
            },
{
    let q = match query {
        None => {
            return plain_span(name, suffix, name_width);
        },
        Some(q) => q,
    };
    if q.unicode_len() < MIN_SEARCH_LEN || !smart_contains(name, q) {
        return plain_span(name, suffix, name_width);
    }
    let upper = has_uppercase(q);
    let (pos, mlen): (usize, usize) = if upper {
        let found = find_first(name, q);
        match found {
            Some(p) => (p, q.unicode_len()),
            None => {
                proof {
                    assert(false);
                }
                (0, 0)
            },
        }
    } else {
        let lname = to_lowercase_str(name);
        let lq = to_lowercase_str(q);
        let found = find_first(lname.as_str(), lq.as_str());
        match found {
            Some(p) => (p, lq.as_str().unicode_len()),
            None => {
                proof {
                    assert(false);
                }
                (0, 0)
            },
        }
    };
    let nlen = name.unicode_len();
    if pos > nlen || nlen - pos < mlen {
        let r = plain_span(name, suffix, name_width);
        proof {
            assert(first_match_at(
                highlight_hay(name@, q@),
                highlight_needle(q@),
                pos as int,
            ));
        }
        return r;
    }
    let before = String::from_str(name.substring_char(0, pos));
    let matched = String::from_str(name.substring_char(pos, pos + mlen));
    let mut after = String::from_str(name.substring_char(pos + mlen, nlen));
    if name_width > nlen {
        push_spaces(&mut after, name_width - nlen);
    } else {
        proof {
            assert(spaces(name_width - name@.len()) =~= Seq::<char>::empty());
        }
    }
    proof {
        assert(after@ =~= name@.skip(pos + mlen as int) + spaces(name_width - name@.len()));
    }
    let suffix_text = String::from_str(suffix);
    let mut r: Vec<Span> = Vec::new();
    r.push(Span { text: before, style: Style::new() });
    r.push(
        Span {
            text: matched,
            style: Style {
                fg: Some(Color::Black),
                bg: Some(Color::Yellow),
                bold: false,
                dim: false,
                italic: false,
                underlined: false,
                reversed: false,
                crossed_out: false,
            },
        },
    );
    r.push(Span { text: after, style: Style::new() });
    r.push(Span { text: suffix_text, style: Style::new() });
    proof {
        assert(first_match_at(highlight_hay(name@, q@), highlight_needle(q@), pos as int));
    }
    r
}

/// The line offsets of the searchable items from position `i` on whose
/// names match `q` under the smart-case rule.
pub open spec fn spec_matching_offsets(
    items: Seq<(&'static str, u16)>,
    q: Seq<char>,
    i: int,
) -> Seq<u16>
    decreases items.len() - i,
{
    if i < 0 || i >= items.len() {
        Seq::empty()
    } else {
        (if spec_smart_contains(items[i].0@, q) {
            seq![items[i].1]
        } else {
            Seq::<u16>::empty()
        }) + spec_matching_offsets(items, q, i + 1)
    }
}

/// Filter a pane's searchable index through the smart-case rule.
pub fn matching_offsets(items: &Vec<(&'static str, u16)>, query: &str) -> (r: Vec<u16>)
    ensures
        r@ == spec_matching_offsets(items@, query@, 0),
{
    let mut r: Vec<u16> = Vec::new();
    let len = items.len();
    let mut i: usize = 0;
    while i < len
        invariant
            i <= len,
            len == items@.len(),
            spec_matching_offsets(items@, query@, 0) == r@ + spec_matching_offsets(
                items@,
                query@,
                i as int,
            ),
        decreases len - i,
    {
        if smart_contains(items[i].0, query) {
            r.push(items[i].1);
        }
        i = i + 1;
        proof {
            assert(spec_matching_offsets(items@, query@, 0) =~= r@ + spec_matching_offsets(
                items@,
                query@,
                i as int,
            ));
        }
    }
    r
}

/// Perform a search over a pane's index: inert below the minimum query
/// length; a no-op when the query is unchanged; otherwise the matches are
/// rebuilt, the current match resets to the first, the query is recorded,
/// and the pane scrolls to the first match if one exists.
pub fn perform_search(
    search: &mut SearchState,
    hints: &mut ScrollHints,
    items: &Vec<(&'static str, u16)>,
    query: &str,
)
    requires
        old(search).wf(),
    ensures
        query@.len() < MIN_SEARCH_LEN ==> *final(search) == *old(search) && *final(hints) == *old(hints),
        query@.len() >= MIN_SEARCH_LEN && query@ == old(search).last_query@ ==> *final(search)
            == *old(search) && *final(hints) == *old(hints),
        query@.len() >= MIN_SEARCH_LEN && query@ != old(search).last_query@ ==> {
            &&& final(search).matches@ == spec_matching_offsets(items@, query@, 0)
            &&& final(search).current_match == 0
            &&& final(search).last_query@ == query@
            &&& final(hints).max_offset == old(hints).max_offset
            &&& final(hints).page_height == old(hints).page_height
            &&& (final(search).matches@.len() == 0 ==> final(hints).y_offset == old(hints).y_offset)
            &&& (final(search).matches@.len() > 0 ==> final(hints).y_offset == if final(search).matches@[0] <= old(hints).max_offset {
                final(search).matches@[0]
            } else {
                old(hints).max_offset
            })
        },
        final(search).wf(),
{
    let qlen = query.unicode_len();
    if qlen < MIN_SEARCH_LEN {
        return ;
    }
    if crate::cpu::str_eq(query, search.last_query.as_str()) {
        return ;
    }
    let matches = matching_offsets(items, query);
    let first: Option<u16> = if matches.len() > 0 {
        Some(matches[0])
    } else {
        None
    };
    search.matches = matches;
    search.current_match = 0;
    search.last_query = String::from_str(query);
    match first {
        Some(offset) => hints.scroll_to(offset),
        None => {},
    }
}

/// Advance to the next match with wraparound and scroll to it; with no
/// matches, nothing moves.
pub fn next_match(search: &mut SearchState, hints: &mut ScrollHints)
    requires
        old(search).wf(),
    ensures
        old(search).matches@.len() == 0 ==> *final(search) == *old(search) && *final(hints)
            == *old(hints),
        old(search).matches@.len() > 0 ==> {
            &&& final(search).current_match == (old(search).current_match + 1) % (old(search).matches@.len() as int)
            &&& final(search).matches == old(search).matches
            &&& final(search).last_query == old(search).last_query
            &&& final(hints).max_offset == old(hints).max_offset
            &&& final(hints).page_height == old(hints).page_height
            &&& final(hints).y_offset == if old(search).matches@[final(search).current_match as int] <= old(hints).max_offset {
                old(search).matches@[final(search).current_match as int]
            } else {
                old(hints).max_offset
            }
        },
        final(search).wf(),
{
    let stepped = search.next();
    match stepped {
        Some(offset) => hints.scroll_to(offset),
        None => {},
    }
}

/// Retreat to the previous match with wraparound and scroll to it; with no
/// matches, nothing moves.
pub fn prev_match(search: &mut SearchState, hints: &mut ScrollHints)
    requires
        old(search).wf(),
    ensures
        old(search).matches@.len() == 0 ==> *final(search) == *old(search) && *final(hints)
            == *old(hints),
        old(search).matches@.len() > 0 ==> {
            &&& final(search).current_match == if old(search).current_match == 0 {
                old(search).matches@.len() - 1
            } else {
                old(search).current_match - 1
            }
            &&& final(search).matches == old(search).matches
            &&& final(search).last_query == old(search).last_query
            &&& final(hints).max_offset == old(hints).max_offset
            &&& final(hints).page_height == old(hints).page_height
            &&& final(hints).y_offset == if old(search).matches@[final(search).current_match as int] <= old(hints).max_offset {
                old(search).matches@[final(search).current_match as int]
            } else {
                old(hints).max_offset
            }
        },
        final(search).wf(),
{
    let stepped = search.prev();
    match stepped {
        Some(offset) => hints.scroll_to(offset),
        None => {},
    }
}

} // verus!

