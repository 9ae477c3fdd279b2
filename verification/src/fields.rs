//! The logical fields of a tag and the mathematical picture of their values.

use crate::config::Config;
use crate::text::split_text;
use vstd::prelude::*;

verus! {

/// The fields that the neutral record knows. A format may lack some of them.
#[derive(Clone, Copy, Debug, PartialEq, Eq, Structural)]
pub enum Field {
    Title,
    Artist,
    Year,
    AlbumTitle,
    AlbumArtist,
    AlbumCover,
    Composer,
    TrackNumber,
    TotalTracks,
    DiscNumber,
    TotalDiscs,
    Genre,
    Comment,
    Duration,
}

/// The kind of image that a cover holds.
#[derive(Clone, Copy, Debug, PartialEq, Eq, Structural)]
pub enum MimeType {
    Png,
    Jpeg,
    Tiff,
    Bmp,
    Gif,
}

/// A cover image as a value: its bytes and its kind.
pub struct PictureView {
    pub data: Seq<u8>,
    pub mime_type: MimeType,
}

/// What a tag shows through its field accessors: for each field the value, or
/// `None` where the tag holds none. Texts are sequences of characters.
pub struct TagFields {
    pub title: Option<Seq<char>>,
    pub artist: Option<Seq<char>>,
    pub year: Option<i32>,
    pub album_title: Option<Seq<char>>,
    pub album_artist: Option<Seq<char>>,
    pub album_cover: Option<PictureView>,
    pub composer: Option<Seq<char>>,
    pub track_number: Option<u16>,
    pub total_tracks: Option<u16>,
    pub disc_number: Option<u16>,
    pub total_discs: Option<u16>,
    pub genre: Option<Seq<char>>,
    pub comment: Option<Seq<char>>,
    /// Length of the audio in milliseconds; a hint that no tag stores.
    pub duration: Option<u64>,
}

impl TagFields {
    /// The fields of a tag that holds nothing.
    pub open spec fn empty() -> TagFields {
        TagFields {
            title: None,
            artist: None,
            year: None,
            album_title: None,
            album_artist: None,
            album_cover: None,
            composer: None,
            track_number: None,
            total_tracks: None,
            disc_number: None,
            total_discs: None,
            genre: None,
            comment: None,
            duration: None,
        }
    }

    /// Whether the field `field` holds a value.
    pub open spec fn has(self, field: Field) -> bool {
        match field {
            Field::Title => self.title is Some,
            Field::Artist => self.artist is Some,
            Field::Year => self.year is Some,
            Field::AlbumTitle => self.album_title is Some,
            Field::AlbumArtist => self.album_artist is Some,
            Field::AlbumCover => self.album_cover is Some,
            Field::Composer => self.composer is Some,
            Field::TrackNumber => self.track_number is Some,
            Field::TotalTracks => self.total_tracks is Some,
            Field::DiscNumber => self.disc_number is Some,
            Field::TotalDiscs => self.total_discs is Some,
            Field::Genre => self.genre is Some,
            Field::Comment => self.comment is Some,
            Field::Duration => self.duration is Some,
        }
    }

    /// Whether every field that holds a value is one that `supports` admits:
    /// what a format cannot represent is absent.
    pub open spec fn within(self, supports: spec_fn(Field) -> bool) -> bool {
        forall|field: Field| #[trigger] self.has(field) ==> supports(field)
    }
}

/// The values of a field that may hold several artists: the text cut at the
/// separator where the settings ask for it, the text as one value where they
/// do not.
pub open spec fn artists_of(artist: Option<Seq<char>>, config: Config) -> Option<Seq<Seq<char>>> {
    match artist {
        Some(text) => if config.parse_multiple_artists {
            Some(split_text(text, config.sep_artist@))
        } else {
            Some(seq![text])
        },
        None => None,
    }
}

} // verus!
