//! A number and a total packed into one text, as in "3/12".
//!
//! Some formats keep the track number and the number of tracks in one slot,
//! the two in decimal with a slash between them; others keep them apart.
//! Taking a packed text apart never fails: a part that does not read as a
//! number is absent, and the total counts only behind a number.

use crate::decimal::{
    decimal_text, format_u16, is_digit, lemma_decimal_round_trip, lemma_digits_of, parse_u16,
    u16_value,
};
use vstd::prelude::*;

verus! {

/// The position of the first slash of `s` at or behind `from`.
pub open spec fn first_slash(s: Seq<char>, from: int) -> Option<int>
    decreases s.len() - from,
{
    if from < 0 || from >= s.len() {
        None
    } else if s[from] == '/' {
        Some(from)
    } else {
        first_slash(s, from + 1)
    }
}

/// The number and the total that the packed text `s` holds. The number is
/// what stands before the first slash, or the whole text where there is no
/// slash; the total is what stands behind that slash. Where the number is
/// malformed both are absent; where only the total is malformed, or there is
/// none, the total is absent.
pub open spec fn packed_value(s: Seq<char>) -> (Option<u16>, Option<u16>) {
    match first_slash(s, 0) {
        Some(at) => match u16_value(s.subrange(0, at)) {
            Some(number) => (Some(number), u16_value(s.subrange(at + 1, s.len() as int))),
            None => (None, None),
        },
        None => (u16_value(s), None),
    }
}

/// The packed text of a number and, where there is one, a total.
pub open spec fn packed_text(number: u16, total: Option<u16>) -> Seq<char> {
    match total {
        Some(total) => decimal_text(number as int) + seq!['/'] + decimal_text(total as int),
        None => decimal_text(number as int),
    }
}

/// Where the first slash is, given a stretch without one up to `stop`.
pub proof fn lemma_first_slash(s: Seq<char>, from: int, stop: int)
    requires
        0 <= from <= stop <= s.len(),
        forall|i: int| from <= i < stop ==> s[i] != '/',
        stop < s.len() ==> s[stop] == '/',
    ensures
        first_slash(s, from) == if stop < s.len() {
            Some(stop)
        } else {
            None
        },
    decreases stop - from,
{
    if from < stop {
        lemma_first_slash(s, from + 1, stop);
    }
}

/// Taking apart the packed text of a number and a total gives both back.
pub proof fn lemma_packed_round_trip(number: u16, total: Option<u16>)
    ensures
        packed_value(packed_text(number, total)) == (Some(number), total),
{
    let head = decimal_text(number as int);
    let s = packed_text(number, total);
    lemma_digits_of(number as int);
    lemma_decimal_round_trip(number as int, false);
    assert forall|i: int| 0 <= i < head.len() implies s[i] != '/' by {
        assert(is_digit(head[i]));
    }
    match total {
        Some(t) => {
            lemma_decimal_round_trip(t as int, false);
            lemma_first_slash(s, 0, head.len() as int);
            assert(s.subrange(0, head.len() as int) =~= head);
            assert(s.subrange(head.len() as int + 1, s.len() as int) =~= decimal_text(t as int));
        },
        None => {
            lemma_first_slash(s, 0, s.len() as int);
        },
    }
}

/// Takes a packed text apart into its number and its total.
pub fn split_packed(s: &str) -> (parts: (Option<u16>, Option<u16>))
    ensures
        parts == packed_value(s@),
{
    let n: usize = s.unicode_len();
    let mut i: usize = 0;
    while i < n && s.get_char(i) != '/'
        invariant
            i <= n,
            n == s@.len(),
            forall|j: int| 0 <= j < i ==> s@[j] != '/',
        decreases n - i,
    {
        i = i + 1;
    }
    proof {
        lemma_first_slash(s@, 0, i as int);
    }
    if i == n {
        (parse_u16(s), None)
    } else {
        match parse_u16(s.substring_char(0, i)) {
            Some(number) => (Some(number), parse_u16(s.substring_char(i + 1, n))),
            None => (None, None),
        }
    }
}

/// Packs a number and, where there is one, a total into one text.
pub fn join_packed(number: u16, total: Option<u16>) -> (text: String)
    ensures
        text@ == packed_text(number, total),
        packed_value(text@) == (Some(number), total),
{
    let mut text = format_u16(number);
    match total {
        Some(total) => {
            proof {
                reveal_strlit("/");
            }
            text.append("/");
            let tail = format_u16(total);
            text.append(tail.as_str());
        },
        None => {},
    }
    proof {
        assert(text@ =~= packed_text(number, total));
        lemma_packed_round_trip(number, total);
    }
    text
}

} // verus!
