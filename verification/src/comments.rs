//! The comment list of a Vorbis comment header, as the `oggvorbismeta` crate
//! keeps it, and what its operations do to it.
//!
//! A header holds its comments in order, each a tag name with a value. Tag
//! names are compared without regard to case, several comments may carry the
//! same name, and a reader that wants one value takes the first.

use oggvorbismeta::CommentHeader;
use oggvorbismeta::VorbisComments;
use vstd::prelude::*;
use vstd::utf8::is_ascii_chars;

verus! {

broadcast use vstd::seq_lib::group_seq_properties;

/// One comment: a tag name and its value.
pub type Comment = (Seq<char>, Seq<char>);

/// The header type of `oggvorbismeta` (`lewton::header::CommentHeader`, which
/// that crate hands on). Its contents are reached through `comment_list`
/// only.
#[verifier::external_type_specification]
#[verifier::external_body]
pub struct ExCommentHeader(oggvorbismeta::CommentHeader);

/// The comments of a header, in the order in which it holds them: the field
/// `comment_list` of `CommentHeader`, each text as its characters.
pub uninterp spec fn comment_list(header: CommentHeader) -> Seq<Comment>;

/// What `str::to_lowercase` of the standard library returns for the text `s`.
pub uninterp spec fn lowercase(s: Seq<char>) -> Seq<char>;

/// The lower-case form of an ASCII letter; any other character unchanged.
pub open spec fn ascii_lower_char(c: char) -> char {
    if 'A' <= c && c <= 'Z' {
        ((c as u32) + 32) as char
    } else {
        c
    }
}

/// `s` with its ASCII capitals made small.
pub open spec fn ascii_lowercase(s: Seq<char>) -> Seq<char> {
    Seq::new(s.len(), |i: int| ascii_lower_char(s[i]))
}

/// The form in which a header compares and stores a tag name: the result of
/// `str::to_lowercase`. On ASCII text that is the text with its capitals made
/// small; on any other text it is only named.
pub open spec fn folded(tag: Seq<char>) -> Seq<char> {
    if is_ascii_chars(tag) {
        ascii_lowercase(tag)
    } else {
        lowercase(tag)
    }
}

/// Whether a header takes two tag names for the same.
pub open spec fn same_tag(a: Seq<char>, b: Seq<char>) -> bool {
    folded(a) == folded(b)
}

/// The values of the comments of `list` that are named `tag`, in order.
pub open spec fn values_of(list: Seq<Comment>, tag: Seq<char>) -> Seq<Seq<char>> {
    list.filter(|c: Comment| same_tag(c.0, tag)).map_values(|c: Comment| c.1)
}

/// The value of the first comment of `list` that is named `tag`.
pub open spec fn first_value(list: Seq<Comment>, tag: Seq<char>) -> Option<Seq<char>> {
    let values = values_of(list, tag);
    if values.len() == 0 {
        None
    } else {
        Some(values[0])
    }
}

/// `list` without the comments that are named `tag`.
pub open spec fn without_tag(list: Seq<Comment>, tag: Seq<char>) -> Seq<Comment> {
    list.filter(|c: Comment| !same_tag(c.0, tag))
}

/// `list` with one comment `tag = value` in place of all that were named
/// `tag`: the others keep their order, the new one comes last.
pub open spec fn with_single(list: Seq<Comment>, tag: Seq<char>, value: Seq<char>) -> Seq<Comment> {
    without_tag(list, tag).push((folded(tag), value))
}

/// Makes a header without comments, by `VorbisComments::new`, which builds
/// one with an empty vendor text and an empty comment list.
#[verifier::external_body]
pub(crate) fn empty_header() -> (header: CommentHeader)
    ensures
        comment_list(header) == Seq::<Comment>::empty(),
{
    <CommentHeader as VorbisComments>::new()
}

/// Reads one value, by `VorbisComments::get_tag_single`: it collects the
/// values of all comments whose name, made lower-case, equals the lower-case
/// form of `tag`, and returns the first of them, if there is one.
#[verifier::external_body]
pub(crate) fn first_comment(header: &CommentHeader, tag: &str) -> (value: Option<String>)
    ensures
        value.deep_view() == first_value(comment_list(*header), tag@),
{
    header.get_tag_single(tag)
}

/// Removes the comments named `tag`, by `VorbisComments::clear_tag`: it
/// retains, in order, the comments whose name, made lower-case, differs from
/// the lower-case form of `tag`.
#[verifier::external_body]
pub(crate) fn clear_comments(header: &mut CommentHeader, tag: &str)
    ensures
        comment_list(*final(header)) == without_tag(comment_list(*old(header)), tag@),
{
    header.clear_tag(tag)
}

/// Adds one comment, by `VorbisComments::add_tag_single`: it pushes the pair
/// of `tag.to_lowercase()` and `value` onto the end of the list, and leaves
/// what was there. The name so stored is the folded form of `tag`.
#[verifier::external_body]
pub(crate) fn add_comment(header: &mut CommentHeader, tag: &str, value: &str)
    ensures
        comment_list(*final(header)) == comment_list(*old(header)).push((lowercase(tag@), value@)),
        comment_list(*final(header)).last().0 == folded(tag@),
{
    header.add_tag_single(tag, value)
}

/// Making ASCII text lower-case a second time changes nothing.
pub proof fn lemma_folded_twice(tag: Seq<char>)
    requires
        is_ascii_chars(tag),
    ensures
        is_ascii_chars(folded(tag)),
        folded(folded(tag)) == folded(tag),
{
    let once = folded(tag);
    assert forall|i: int| 0 <= i < once.len() implies '\0' <= #[trigger] once[i] <= '\u{7f}' by {
        assert('\0' <= tag[i] <= '\u{7f}');
    }
    assert(folded(once) =~= once);
}

/// What the values named `tag` are after one more comment was pushed.
pub proof fn lemma_values_push(list: Seq<Comment>, c: Comment, tag: Seq<char>)
    ensures
        values_of(list.push(c), tag) == if same_tag(c.0, tag) {
            values_of(list, tag).push(c.1)
        } else {
            values_of(list, tag)
        },
{
    let pred = |c: Comment| same_tag(c.0, tag);
    list.lemma_filter_push(c, pred);
    if same_tag(c.0, tag) {
        assert(list.filter(pred).push(c).map_values(|c: Comment| c.1) =~= values_of(list, tag).push(
            c.1,
        ));
    }
}

/// After the comments named `tag` were removed, none is named `tag`, and the
/// values under every other name are what they were.
pub proof fn lemma_values_without(list: Seq<Comment>, tag: Seq<char>, other: Seq<char>)
    ensures
        values_of(without_tag(list, tag), other) == if same_tag(other, tag) {
            Seq::<Seq<char>>::empty()
        } else {
            values_of(list, other)
        },
    decreases list.len(),
{
    let keep = |c: Comment| !same_tag(c.0, tag);
    reveal(Seq::filter);
    if list.len() == 0 {
        assert(values_of(list, other) =~= Seq::<Seq<char>>::empty());
        assert(without_tag(list, tag) =~= list);
    } else {
        let front = list.drop_last();
        let c = list.last();
        lemma_values_without(front, tag, other);
        assert(list =~= front.push(c));
        front.lemma_filter_push(c, keep);
        lemma_values_push(front, c, other);
        if keep(c) {
            lemma_values_push(without_tag(front, tag), c, other);
        }
    }
}

/// After `tag` was set to `value`, a reader of `tag` finds `value`, and a
/// reader of any other name finds what it found before.
pub proof fn lemma_first_value_with_single(
    list: Seq<Comment>,
    tag: Seq<char>,
    value: Seq<char>,
    other: Seq<char>,
)
    requires
        is_ascii_chars(tag),
    ensures
        first_value(with_single(list, tag, value), other) == if same_tag(other, tag) {
            Some(value)
        } else {
            first_value(list, other)
        },
{
    lemma_folded_twice(tag);
    lemma_values_without(list, tag, other);
    lemma_values_push(without_tag(list, tag), (folded(tag), value), other);
}

/// After the comments named `tag` were removed, a reader of `tag` finds
/// nothing, and a reader of any other name finds what it found before.
pub proof fn lemma_first_value_without(list: Seq<Comment>, tag: Seq<char>, other: Seq<char>)
    ensures
        first_value(without_tag(list, tag), other) == if same_tag(other, tag) {
            None
        } else {
            first_value(list, other)
        },
{
    lemma_values_without(list, tag, other);
}

} // verus!
