//! The formats that the library has an adapter for, what each of them can
//! represent, and how the format of a file is told.

use crate::error::Error;
use crate::fields::Field;
use crate::text::same_text;
use vstd::prelude::*;

verus! {

/// A tag format.
#[derive(Clone, Copy, Debug, PartialEq, Eq, Structural)]
pub enum TagType {
    /// Comments in the header of an Ogg Vorbis stream.
    Vorbis,
}

impl TagType {
    /// Whether the format has a place for `field`.
    ///
    /// A Vorbis comment header holds title, artist, year, album title, track
    /// number, genre and comment. It has no album artist, cover, composer,
    /// number of tracks, disc number or number of discs, and no tag stores a
    /// duration.
    pub open spec fn supports(self, field: Field) -> bool {
        match self {
            TagType::Vorbis => match field {
                Field::Title
                | Field::Artist
                | Field::Year
                | Field::AlbumTitle
                | Field::TrackNumber
                | Field::Genre
                | Field::Comment => true,
                _ => false,
            },
        }
    }

    /// The format that files with the extension `ext` hold, where one is
    /// known. The extension is compared as it stands, in lower case and
    /// without the dot.
    pub open spec fn of_extension(ext: Seq<char>) -> Option<TagType> {
        if ext =~= seq!['o', 'g', 'g'] {
            Some(TagType::Vorbis)
        } else {
            None
        }
    }

    /// Whether the format has a place for `field`.
    pub fn has_field(self, field: Field) -> (supported: bool)
        ensures
            supported == self.supports(field),
    {
        match self {
            TagType::Vorbis => match field {
                Field::Title => true,
                Field::Artist => true,
                Field::Year => true,
                Field::AlbumTitle => true,
                Field::TrackNumber => true,
                Field::Genre => true,
                Field::Comment => true,
                _ => false,
            },
        }
    }

    /// Tells the format from a file extension, or fails with
    /// `UnsupportedFormat`, which then holds the extension.
    pub fn try_from_ext(ext: &str) -> (found: Result<TagType, Error>)
        ensures
            match TagType::of_extension(ext@) {
                Some(tag_type) => found matches Ok(t) && t == tag_type,
                None => found matches Err(Error::UnsupportedFormat(asked)) && asked@ == ext@,
            },
    {
        proof {
            reveal_strlit("ogg");
        }
        if same_text(ext, "ogg") {
            assert("ogg"@ =~= seq!['o', 'g', 'g']);
            Ok(TagType::Vorbis)
        } else {
            assert("ogg"@ =~= seq!['o', 'g', 'g']);
            Err(Error::UnsupportedFormat(String::from_str(ext)))
        }
    }
}

/// What a detector concludes for a file with the extension `ext` whose first
/// bytes a sniffer took for `sniffed`: the format of the extension where it
/// is known, else what the sniffer found.
pub open spec fn detected(ext: Seq<char>, sniffed: Option<TagType>) -> Option<TagType> {
    match TagType::of_extension(ext) {
        Some(tag_type) => Some(tag_type),
        None => sniffed,
    }
}

/// Tells the format of a file from its extension and from what a sniffer
/// made of its first bytes, if it recognised them. The extension decides
/// where it is known. Fails with `UnsupportedFormat`, which then holds the
/// extension, where neither is.
pub fn detect(ext: &str, sniffed: Option<TagType>) -> (found: Result<TagType, Error>)
    ensures
        match detected(ext@, sniffed) {
            Some(tag_type) => found matches Ok(t) && t == tag_type,
            None => found matches Err(Error::UnsupportedFormat(asked)) && asked@ == ext@,
        },
{
    match TagType::try_from_ext(ext) {
        Ok(tag_type) => Ok(tag_type),
        Err(unknown) => match sniffed {
            Some(tag_type) => Ok(tag_type),
            None => Err(unknown),
        },
    }
}

} // verus!
