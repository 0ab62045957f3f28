//! Smart-case substring search over line-labelled content, and the state
//! used to navigate through the resulting matches.
//!
//! Matching is case-insensitive when the query is all lowercase and
//! case-sensitive as soon as the query holds any uppercase character.

use vstd::prelude::*;

verus! {

/// The lowercase equivalent of a sequence of characters, as
/// `str::to_lowercase` computes it. A function of the characters alone.
pub uninterp spec fn lower_of(s: Seq<char>) -> Seq<char>;

/// Whether a character has the Unicode uppercase property, as
/// `char::is_uppercase` decides it. A function of the character alone.
pub uninterp spec fn char_is_upper(c: char) -> bool;

/// `n` occurs in `h` starting at position `i`.
pub open spec fn match_at(h: Seq<char>, n: Seq<char>, i: int) -> bool {
    0 <= i && i + n.len() <= h.len() && h.subrange(i, i + n.len() as int) == n
}

/// `n` occurs somewhere in `h`.
pub open spec fn contains_seq(h: Seq<char>, n: Seq<char>) -> bool {
    exists|i: int| match_at(h, n, i)
}

/// Some character of `s` is uppercase.
pub open spec fn has_upper(s: Seq<char>) -> bool {
    exists|i: int| 0 <= i < s.len() && char_is_upper(s[i])
}

/// The smart-case matching rule: a query with any uppercase character is
/// matched case-sensitively, an all-lowercase query case-insensitively.
pub open spec fn spec_smart_contains(h: Seq<char>, n: Seq<char>) -> bool {
    if has_upper(n) {
        contains_seq(h, n)
    } else {
        contains_seq(lower_of(h), lower_of(n))
    }
}

/// Relies on `char::is_uppercase`: whether the character has the Unicode
/// uppercase property, a function of the character alone.
#[verifier::external_body]
fn is_uppercase_char(c: char) -> (r: bool)
    ensures
        r == char_is_upper(c),
{
    c.is_uppercase()
}

/// Relies on `str::to_lowercase`: the lowercase equivalent of the string,
/// a function of its characters alone; an empty string stays empty.
#[verifier::external_body]
pub(crate) fn to_lowercase_str(s: &str) -> (r: String)
    ensures
        r@ == lower_of(s@),
        s@.len() == 0 ==> r@.len() == 0,
{
    s.to_lowercase()
}

/// Check if the query contains any uppercase character (for smart-case).
pub fn has_uppercase(s: &str) -> (r: bool)
    ensures
        r == has_upper(s@),
{
    let len = s.unicode_len();
    let mut i: usize = 0;
    while i < len
        invariant
            i <= len,
            len == s@.len(),
            forall|k: int| 0 <= k < i ==> !char_is_upper(s@[k]),
        decreases len - i,
    {
        if is_uppercase_char(s.get_char(i)) {
            return true;
        }
        i = i + 1;
    }
    false
}

/// `n` occurs in `h` at position `i`, checked character by character.
fn matches_at(h: &str, n: &str, i: usize, hl: usize, nl: usize) -> (r: bool)
    requires
        hl == h@.len(),
        nl == n@.len(),
        i + nl <= hl,
    ensures
        r == match_at(h@, n@, i as int),
{
    let mut j: usize = 0;
    while j < nl
        invariant
            j <= nl,
            i + nl <= hl,
            hl == h@.len(),
            nl == n@.len(),
            forall|m: int| 0 <= m < j ==> h@[i + m] == n@[m],
        decreases nl - j,
    {
        if h.get_char(i + j) != n.get_char(j) {
            proof {
                assert(h@.subrange(i as int, i + nl as int) == n@ ==> h@.subrange(
                    i as int,
                    i + nl as int,
                )[j as int] == n@[j as int]);
            }
            return false;
        }
        j = j + 1;
    }
    proof {
        assert(h@.subrange(i as int, i + nl as int) =~= n@);
    }
    true
}

/// Plain substring containment over characters.
fn contains_str(h: &str, n: &str) -> (r: bool)
    ensures
        r == contains_seq(h@, n@),
{
    let hl = h.unicode_len();
    let nl = n.unicode_len();
    if nl > hl {
        return false;
    }
    if nl == 0 {
        proof {
            assert(h@.subrange(0, 0) =~= n@);
            assert(match_at(h@, n@, 0));
        }
        return true;
    }
    let mut i: usize = 0;
    while i <= hl - nl
        invariant
            1 <= nl <= hl,
            i <= hl - nl + 1,
            hl == h@.len(),
            nl == n@.len(),
            forall|k: int| 0 <= k < i ==> !match_at(h@, n@, k),
        decreases hl - i,
    {
        if matches_at(h, n, i, hl, nl) {
            return true;
        }
        i = i + 1;
    }
    false
}

/// `n` first occurs in `h` at position `i`.
pub open spec fn first_match_at(h: Seq<char>, n: Seq<char>, i: int) -> bool {
    match_at(h, n, i) && (forall|k: int| 0 <= k < i ==> !match_at(h, n, k))
}

/// The position of the first occurrence of `n` in `h`, or `None` when
/// there is none.
pub fn find_first(h: &str, n: &str) -> (r: Option<usize>)
    ensures
        match r {
            Some(i) => first_match_at(h@, n@, i as int),
            None => !contains_seq(h@, n@),
        },
{
    let hl = h.unicode_len();
    let nl = n.unicode_len();
    if nl > hl {
        return None;
    }
    if nl == 0 {
        proof {
            assert(h@.subrange(0, 0) =~= n@);
            assert(match_at(h@, n@, 0));
        }
        return Some(0);
    }
    let mut i: usize = 0;
    while i <= hl - nl
        invariant
            1 <= nl <= hl,
            i <= hl - nl + 1,
            hl == h@.len(),
            nl == n@.len(),
            forall|k: int| 0 <= k < i ==> !match_at(h@, n@, k),
        decreases hl - i,
    {
        if matches_at(h, n, i, hl, nl) {
            return Some(i);
        }
        i = i + 1;
    }
    None
}

/// Smart-case string matching: case-insensitive if the query is all
/// lowercase, case-sensitive if it contains any uppercase character.
pub fn smart_contains(haystack: &str, needle: &str) -> (r: bool)
    ensures
        r == spec_smart_contains(haystack@, needle@),
{
    if has_uppercase(needle) {
        contains_str(haystack, needle)
    } else {
        let lh = to_lowercase_str(haystack);
        let ln = to_lowercase_str(needle);
        contains_str(lh.as_str(), ln.as_str())
    }
}

/// The line offsets of the names among `names` that match `q`, counting
/// lines from `start` upward, taken from position `i` on.
pub open spec fn matched_lines_from(names: Seq<Seq<char>>, q: Seq<char>, start: int, i: int) -> Seq<
    u16,
>
    decreases names.len() - i,
{
    if i < 0 || i >= names.len() {
        Seq::empty()
    } else {
        let rest = matched_lines_from(names, q, start, i + 1);
        if spec_smart_contains(names[i], q) {
            seq![(start + i) as u16] + rest
        } else {
            rest
        }
    }
}

/// The line offsets of all matching names.
pub open spec fn matched_lines(names: Seq<Seq<char>>, q: Seq<char>, start: int) -> Seq<u16> {
    matched_lines_from(names, q, start, 0)
}

/// Search through feature names and return matching line offsets.
pub fn find_matches<'a>(query: &str, features: &Vec<(&'a str, bool)>, start_line: u16) -> (r: Vec<
    u16,
>)
    requires
        start_line + features@.len() <= u16::MAX,
    ensures
        r@ == matched_lines(features@.map_values(|f: (&str, bool)| f.0@), query@, start_line as int),
{
    let ghost names = features@.map_values(|f: (&str, bool)| f.0@);
    let mut matches: Vec<u16> = Vec::new();
    let len = features.len();
    let mut i: usize = 0;
    while i < len
        invariant
            i <= len,
            len == features@.len(),
            names == features@.map_values(|f: (&str, bool)| f.0@),
            start_line + len <= u16::MAX,
            matched_lines(names, query@, start_line as int) == matches@ + matched_lines_from(
                names,
                query@,
                start_line as int,
                i as int,
            ),
        decreases len - i,
    {
        if smart_contains(features[i].0, query) {
            let line: u16 = start_line + (i as u16);
            matches.push(line);
        }
        i = i + 1;
    }
    matches
}

/// Search through string names and return matching line offsets.
pub fn find_matches_strs<'a>(query: &str, names: &Vec<&'a str>, start_line: u16) -> (r: Vec<u16>)
    requires
        start_line + names@.len() <= u16::MAX,
    ensures
        r@ == matched_lines(names@.map_values(|n: &str| n@), query@, start_line as int),
{
    let ghost nseq = names@.map_values(|n: &str| n@);
    let mut matches: Vec<u16> = Vec::new();
    let len = names.len();
    let mut i: usize = 0;
    while i < len
        invariant
            i <= len,
            len == names@.len(),
            nseq == names@.map_values(|n: &str| n@),
            start_line + len <= u16::MAX,
            matched_lines(nseq, query@, start_line as int) == matches@ + matched_lines_from(
                nseq,
                query@,
                start_line as int,
                i as int,
            ),
        decreases len - i,
    {
        if smart_contains(names[i], query) {
            let line: u16 = start_line + (i as u16);
            matches.push(line);
        }
        i = i + 1;
    }
    matches
}

/// Search state for navigating through matches.
pub struct SearchState {
    pub matches: Vec<u16>,
    pub current_match: usize,
    pub last_query: String,
}

impl SearchState {
    /// If there are no matches the current index is pinned at zero;
    /// otherwise it points at one of the matches.
    pub open spec fn wf(&self) -> bool {
        if self.matches@.len() == 0 {
            self.current_match == 0
        } else {
            self.current_match < self.matches@.len()
        }
    }

    pub fn new() -> (r: Self)
        ensures
            r.matches@.len() == 0,
            r.current_match == 0,
            r.last_query@.len() == 0,
            r.wf(),
    {
        SearchState { matches: Vec::new(), current_match: 0, last_query: String::new() }
    }

    /// Move to next match, wrapping around. Returns the new offset if
    /// matches exist.
    pub fn next(&mut self) -> (r: Option<u16>)
        requires
            old(self).wf(),
        ensures
            old(self).matches@.len() == 0 ==> r is None && *final(self) == *old(self),
            old(self).matches@.len() > 0 ==> {
                &&& final(self).current_match == (old(self).current_match + 1) % (
                old(self).matches@.len() as int)
                &&& r == Some(old(self).matches@[final(self).current_match as int])
            },
            final(self).matches == old(self).matches,
            final(self).last_query == old(self).last_query,
            final(self).wf(),
    {
        if self.matches.len() == 0 {
            return None;
        }
        self.current_match = (self.current_match + 1) % self.matches.len();
        Some(self.matches[self.current_match])
    }

    /// Move to previous match, wrapping around. Returns the new offset if
    /// matches exist.
    pub fn prev(&mut self) -> (r: Option<u16>)
        requires
            old(self).wf(),
        ensures
            old(self).matches@.len() == 0 ==> r is None && *final(self) == *old(self),
            old(self).matches@.len() > 0 ==> {
                &&& final(self).current_match == if old(self).current_match == 0 {
                    old(self).matches@.len() - 1
                } else {
                    old(self).current_match - 1
                }
                &&& r == Some(old(self).matches@[final(self).current_match as int])
            },
            final(self).matches == old(self).matches,
            final(self).last_query == old(self).last_query,
            final(self).wf(),
    {
        if self.matches.len() == 0 {
            return None;
        }
        if self.current_match == 0 {
            self.current_match = self.matches.len() - 1;
        } else {
            self.current_match = self.current_match - 1;
        }
        Some(self.matches[self.current_match])
    }

    /// Clear all matches and reset the state.
    pub fn clear(&mut self)
        ensures
            final(self).matches@.len() == 0,
            final(self).current_match == 0,
            final(self).last_query@.len() == 0,
            final(self).wf(),
    {
        self.matches = Vec::new();
        self.current_match = 0;
        self.last_query = String::new();
    }
}

/// The index `next` moves to from index `i` among `n` matches.
pub open spec fn next_index(i: int, n: int) -> int {
    (i + 1) % n
}

/// The index `prev` moves to from index `i` among `n` matches.
pub open spec fn prev_index(i: int, n: int) -> int {
    if i == 0 {
        n - 1
    } else {
        i - 1
    }
}

/// The index reached after `k` applications of `next_index`.
pub open spec fn next_index_iter(i: int, n: int, k: nat) -> int
    decreases k,
{
    if k == 0 {
        i
    } else {
        next_index(next_index_iter(i, n, (k - 1) as nat), n)
    }
}

/// The index reached after `k` applications of `prev_index`.
pub open spec fn prev_index_iter(i: int, n: int, k: nat) -> int
    decreases k,
{
    if k == 0 {
        i
    } else {
        prev_index(prev_index_iter(i, n, (k - 1) as nat), n)
    }
}

proof fn lemma_next_iter_mod(i: int, n: int, k: nat)
    requires
        0 <= i < n,
    ensures
        next_index_iter(i, n, k) == (i + k) % n,
    decreases k,
{
    if k == 0 {
        vstd::arithmetic::div_mod::lemma_small_mod(i as nat, n as nat);
    } else {
        lemma_next_iter_mod(i, n, (k - 1) as nat);
        vstd::arithmetic::div_mod::lemma_add_mod_noop_right(1, i + k - 1, n);
    }
}

proof fn lemma_prev_iter_mod(i: int, n: int, k: nat)
    requires
        0 <= i < n,
    ensures
        prev_index_iter(i, n, k) == (i + k * (n - 1)) % n,
    decreases k,
{
    if k == 0 {
        vstd::arithmetic::div_mod::lemma_small_mod(i as nat, n as nat);
    } else {
        lemma_prev_iter_mod(i, n, (k - 1) as nat);
        let y = i + (k - 1) * (n - 1);
        let j = y % n;
        vstd::arithmetic::div_mod::lemma_mod_bound(y, n);
        assert(prev_index_iter(i, n, k) == prev_index(j, n));
        vstd::arithmetic::div_mod::lemma_small_mod((n - 1) as nat, n as nat);
        vstd::arithmetic::div_mod::lemma_add_mod_noop(y, n - 1, n);
        assert((j + (n - 1)) % n == (y + (n - 1)) % n);
        if j == 0 {
            assert(prev_index(j, n) == (j + (n - 1)) % n);
        } else {
            vstd::arithmetic::div_mod::lemma_mod_add_multiples_vanish(j - 1, n);
            vstd::arithmetic::div_mod::lemma_small_mod((j - 1) as nat, n as nat);
            assert((j + (n - 1)) % n == j - 1);
        }
        assert(i + (k - 1) * (n - 1) + (n - 1) == i + k * (n - 1)) by (nonlinear_arith);
        assert(y + (n - 1) == i + k * (n - 1));
    }
}

/// Wraparound law: with `n` matches, calling `next` exactly `n` times
/// returns `current_match` to where it started.
pub proof fn lemma_next_wraparound(i: int, n: int)
    requires
        0 <= i < n,
    ensures
        next_index_iter(i, n, n as nat) == i,
{
    lemma_next_iter_mod(i, n, n as nat);
    vstd::arithmetic::div_mod::lemma_mod_add_multiples_vanish(i, n);
    vstd::arithmetic::div_mod::lemma_small_mod(i as nat, n as nat);
}

/// Wraparound law: with `n` matches, calling `prev` exactly `n` times
/// returns `current_match` to where it started.
pub proof fn lemma_prev_wraparound(i: int, n: int)
    requires
        0 <= i < n,
    ensures
        prev_index_iter(i, n, n as nat) == i,
{
    lemma_prev_iter_mod(i, n, n as nat);
    vstd::arithmetic::div_mod::lemma_mod_multiples_vanish(n - 1, i, n);
    vstd::arithmetic::div_mod::lemma_small_mod(i as nat, n as nat);
}

impl Default for SearchState {
    fn default() -> (r: Self)
        ensures
            r.matches@.len() == 0,
            r.current_match == 0,
            r.last_query@.len() == 0,
            r.wf(),
    {
        SearchState::new()
    }
}

} // verus!
