//! Splitting a delimited text into its values and joining values back.
//!
//! A field that holds several values, such as the artists of a track, is one
//! text in formats that know a single value only: the values in order, with a
//! separator between neighbours. Splitting cuts at every occurrence of the
//! separator, leftmost first; joining is its inverse.

use vstd::prelude::*;

verus! {

/// Whether `sep` stands in `s` at position `i`.
pub open spec fn occurs_at(s: Seq<char>, sep: Seq<char>, i: int) -> bool {
    0 <= i && i + sep.len() <= s.len() && s.subrange(i, i + sep.len()) == sep
}

/// The pieces of `s` from `start` on, when no cut falls between `start` and
/// `i`: the search for the next occurrence of `sep` goes on at `i`.
pub open spec fn split_from(s: Seq<char>, sep: Seq<char>, start: int, i: int) -> Seq<Seq<char>>
    decreases s.len() - i,
{
    if sep.len() == 0 || i + sep.len() > s.len() {
        seq![s.subrange(start, s.len() as int)]
    } else if occurs_at(s, sep, i) {
        seq![s.subrange(start, i)] + split_from(s, sep, i + sep.len(), i + sep.len())
    } else {
        split_from(s, sep, start, i + 1)
    }
}

/// The values that `s` holds, cut at the occurrences of `sep` from left to
/// right. Occurrences do not overlap; a text without the separator, and any
/// text when the separator is empty, is one value.
pub open spec fn split_text(s: Seq<char>, sep: Seq<char>) -> Seq<Seq<char>> {
    split_from(s, sep, 0, 0)
}

/// The values of `parts` in order, with `sep` between neighbours.
pub open spec fn join_text(parts: Seq<Seq<char>>, sep: Seq<char>) -> Seq<char>
    decreases parts.len(),
{
    if parts.len() == 0 {
        Seq::empty()
    } else if parts.len() == 1 {
        parts[0]
    } else {
        join_text(parts.drop_last(), sep) + sep + parts.last()
    }
}

/// Joining a value in front of a non-empty list puts the value and one
/// separator before the joined list.
pub proof fn lemma_join_front(first: Seq<char>, rest: Seq<Seq<char>>, sep: Seq<char>)
    requires
        rest.len() > 0,
    ensures
        join_text(seq![first] + rest, sep) == first + sep + join_text(rest, sep),
    decreases rest.len(),
{
    let all = seq![first] + rest;
    if rest.len() == 1 {
        assert(all.drop_last() =~= seq![first]);
        assert(join_text(all.drop_last(), sep) == first);
        assert(all.last() == rest[0]);
        assert(join_text(rest, sep) == rest[0]);
    } else {
        lemma_join_front(first, rest.drop_last(), sep);
        assert(all.drop_last() =~= seq![first] + rest.drop_last());
        assert(join_text(all, sep) =~= first + sep + join_text(rest, sep));
    }
}

/// Splitting always yields at least one value.
pub proof fn lemma_split_nonempty(s: Seq<char>, sep: Seq<char>, start: int, i: int)
    ensures
        split_from(s, sep, start, i).len() > 0,
    decreases s.len() - i,
{
    if sep.len() == 0 || i + sep.len() > s.len() {
    } else if occurs_at(s, sep, i) {
    } else {
        lemma_split_nonempty(s, sep, start, i + 1);
    }
}

/// Joining the pieces of the rest of a text gives that rest back.
pub proof fn lemma_join_split_from(s: Seq<char>, sep: Seq<char>, start: int, i: int)
    requires
        0 <= start <= i,
        i <= s.len() || sep.len() == 0,
        start <= s.len(),
    ensures
        join_text(split_from(s, sep, start, i), sep) == s.subrange(start, s.len() as int),
    decreases s.len() - i,
{
    if sep.len() == 0 || i + sep.len() > s.len() {
    } else if occurs_at(s, sep, i) {
        let next = i + sep.len();
        let rest = split_from(s, sep, next, next);
        lemma_split_nonempty(s, sep, next, next);
        lemma_join_split_from(s, sep, next, next);
        lemma_join_front(s.subrange(start, i), rest, sep);
        assert(s.subrange(start, i) + sep + s.subrange(next, s.len() as int) =~= s.subrange(
            start,
            s.len() as int,
        ));
    } else {
        lemma_join_split_from(s, sep, start, i + 1);
    }
}

/// Joining what a split gave, with the same separator, reproduces the text.
pub proof fn lemma_join_split(s: Seq<char>, sep: Seq<char>)
    ensures
        join_text(split_text(s, sep), sep) == s,
{
    lemma_join_split_from(s, sep, 0, 0);
    assert(s.subrange(0, s.len() as int) =~= s);
}

/// Whether `sep` stands in `s` at character position `i`.
fn matches_at(s: &str, sep: &str, i: usize) -> (found: bool)
    requires
        i + sep@.len() <= s@.len() <= usize::MAX,
    ensures
        found == occurs_at(s@, sep@, i as int),
{
    let m: usize = sep.unicode_len();
    let mut k: usize = 0;
    while k < m
        invariant
            k <= m,
            m == sep@.len(),
            i + m <= s@.len() <= usize::MAX,
            s@.subrange(i as int, i + k) == sep@.subrange(0, k as int),
        decreases m - k,
    {
        if s.get_char(i + k) != sep.get_char(k) {
            assert(s@.subrange(i as int, i + m)[k as int] != sep@[k as int]);
            return false;
        }
        assert(s@.subrange(i as int, i + k + 1) =~= s@.subrange(i as int, i + k).push(
            s@[i + k],
        ));
        assert(sep@.subrange(0, k + 1) =~= sep@.subrange(0, k as int).push(sep@[k as int]));
        k = k + 1;
    }
    assert(sep@.subrange(0, m as int) =~= sep@);
    true
}

/// Whether two texts hold the same characters.
pub fn same_text(a: &str, b: &str) -> (same: bool)
    ensures
        same == (a@ == b@),
{
    if a.unicode_len() != b.unicode_len() {
        return false;
    }
    let same = matches_at(a, b, 0);
    assert(a@.subrange(0, a@.len() as int) =~= a@);
    same
}

/// Cuts `s` into its values at the occurrences of `sep`.
pub fn split(s: &str, sep: &str) -> (parts: Vec<String>)
    ensures
        parts.deep_view() == split_text(s@, sep@),
        parts.len() > 0,
{
    let n: usize = s.unicode_len();
    let m: usize = sep.unicode_len();
    let mut parts: Vec<String> = Vec::new();
    let mut start: usize = 0;
    let mut i: usize = 0;
    assert(parts.deep_view() =~= Seq::<Seq<char>>::empty());
    while m > 0 && m <= n && i <= n - m
        invariant
            start <= i <= n,
            n == s@.len(),
            m == sep@.len(),
            parts.deep_view() + split_from(s@, sep@, start as int, i as int) == split_text(
                s@,
                sep@,
            ),
        decreases n - i,
    {
        let ghost before = parts.deep_view();
        if matches_at(s, sep, i) {
            let piece = String::from_str(s.substring_char(start, i));
            parts.push(piece);
            assert(parts.deep_view() =~= before.push(s@.subrange(start as int, i as int)));
            assert(before + (seq![s@.subrange(start as int, i as int)] + split_from(
                s@,
                sep@,
                i + m,
                i + m,
            )) =~= parts.deep_view() + split_from(s@, sep@, i + m, i + m));
            i = i + m;
            start = i;
        } else {
            i = i + 1;
        }
    }
    let ghost before = parts.deep_view();
    let piece = String::from_str(s.substring_char(start, n));
    parts.push(piece);
    assert(parts.deep_view() =~= before.push(s@.subrange(start as int, n as int)));
    assert(before + seq![s@.subrange(start as int, n as int)] =~= parts.deep_view());
    parts
}

/// Joins `parts` in order, with `sep` between neighbours.
pub fn join(parts: &Vec<String>, sep: &str) -> (joined: String)
    ensures
        joined@ == join_text(parts.deep_view(), sep@),
{
    let mut out = String::new();
    let mut i: usize = 0;
    while i < parts.len()
        invariant
            i <= parts.len(),
            out@ == join_text(parts.deep_view().subrange(0, i as int), sep@),
        decreases parts.len() - i,
    {
        let ghost done = parts.deep_view().subrange(0, i as int);
        let ghost next = parts.deep_view().subrange(0, i + 1);
        assert(next.drop_last() =~= done);
        assert(next.last() == parts[i as int]@);
        if i > 0 {
            out.append(sep);
        }
        out.append(parts[i].as_str());
        assert(out@ =~= join_text(next, sep@));
        i = i + 1;
    }
    assert(parts.deep_view().subrange(0, i as int) =~= parts.deep_view());
    out
}

} // verus!
