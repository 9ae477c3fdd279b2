//! The comment names under which a Vorbis comment header keeps the fields.

use crate::comments::{ascii_lowercase, folded, same_tag};
use vstd::prelude::*;
use vstd::utf8::is_ascii_chars;

verus! {

/// The comment names that the Vorbis adapter reads and writes.
#[derive(Clone, Copy, Debug, PartialEq, Eq, Structural)]
pub enum CommentKey {
    Title,
    Artist,
    Date,
    Album,
    TrackNumber,
    Genre,
    Description,
}

impl CommentKey {
    /// The name as the adapter passes it to the header.
    pub open spec fn text(self) -> Seq<char> {
        match self {
            CommentKey::Title => seq!['T', 'I', 'T', 'L', 'E'],
            CommentKey::Artist => seq!['A', 'R', 'T', 'I', 'S', 'T'],
            CommentKey::Date => seq!['D', 'A', 'T', 'E'],
            CommentKey::Album => seq!['A', 'L', 'B', 'U', 'M'],
            CommentKey::TrackNumber => seq!['T', 'R', 'A', 'C', 'K', 'N', 'U', 'M', 'B', 'E', 'R'],
            CommentKey::Genre => seq!['G', 'E', 'N', 'R', 'E'],
            CommentKey::Description => seq!['D', 'E', 'S', 'C', 'R', 'I', 'P', 'T', 'I', 'O', 'N'],
        }
    }

    /// The name as the adapter passes it to the header.
    pub fn name(self) -> (name: &'static str)
        ensures
            name@ == self.text(),
    {
        proof {
            reveal_strlit("TITLE");
            reveal_strlit("ARTIST");
            reveal_strlit("DATE");
            reveal_strlit("ALBUM");
            reveal_strlit("TRACKNUMBER");
            reveal_strlit("GENRE");
            reveal_strlit("DESCRIPTION");
        }
        let name: &'static str = match self {
            CommentKey::Title => "TITLE",
            CommentKey::Artist => "ARTIST",
            CommentKey::Date => "DATE",
            CommentKey::Album => "ALBUM",
            CommentKey::TrackNumber => "TRACKNUMBER",
            CommentKey::Genre => "GENRE",
            CommentKey::Description => "DESCRIPTION",
        };
        assert(name@ =~= self.text());
        name
    }
}

/// Every name is ASCII text.
pub proof fn lemma_key_is_ascii(key: CommentKey)
    ensures
        is_ascii_chars(key.text()),
{
    let t = key.text();
    assert forall|i: int| 0 <= i < t.len() implies '\0' <= #[trigger] t[i] <= '\u{7f}' by {
        if i == 0 {
        } else if i == 1 {
        } else if i == 2 {
        } else if i == 3 {
        } else if i == 4 {
        } else if i == 5 {
        } else if i == 6 {
        } else if i == 7 {
        } else if i == 8 {
        } else if i == 9 {
        } else {
        }
    }
}

/// A header takes two names of the adapter for the same only if they are the
/// same name.
pub proof fn lemma_keys_differ(a: CommentKey, b: CommentKey)
    ensures
        same_tag(a.text(), b.text()) <==> a == b,
{
    lemma_key_is_ascii(a);
    lemma_key_is_ascii(b);
    let fa = folded(a.text());
    let fb = folded(b.text());
    assert(fa == ascii_lowercase(a.text()));
    assert(fb == ascii_lowercase(b.text()));
    assert(fa.len() == a.text().len());
    assert(fb.len() == b.text().len());
    if a != b && fa.len() == fb.len() {
        assert(fa[0] != fb[0]);
    }
}

} // verus!
