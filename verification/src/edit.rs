//! The interface that every tag offers, whatever its format.
//!
//! A caller reads, sets and removes fields through this interface without
//! knowing how the format stores them. A format that cannot represent a
//! field still accepts every call for it: reading finds nothing, setting and
//! removing change nothing.

use crate::config::Config;
use crate::fields::{artists_of, Field, TagFields};
use crate::record::{cover_view, Picture};
use crate::tag_type::TagType;
use vstd::prelude::*;

verus! {

/// Reading and editing the fields of a tag.
///
/// The contract speaks of three things that an implementation defines: the
/// format of the tag (`format`), which decides the fields that it can
/// represent, the values that the tag shows (`fields`) and its settings
/// (`settings`). Setting a supported field makes exactly that field show the
/// new value; removing it makes exactly that field absent; for an unsupported
/// field both leave the whole tag as it was, not only what it shows. No
/// operation changes the format.
pub trait AudioTagEdit: Sized {
    /// Whether the tag is consistent in itself. Every constructor establishes
    /// this and every operation keeps it.
    spec fn wf(&self) -> bool;

    /// What the tag shows through its accessors.
    spec fn fields(&self) -> TagFields;

    /// The settings of the tag.
    spec fn settings(&self) -> Config;

    /// The format of the tag.
    spec fn format(&self) -> TagType;

    /// A field that the format cannot represent is always absent.
    proof fn lemma_gaps_are_absent(&self)
        requires
            self.wf(),
        ensures
            self.fields().within(|field: Field| self.format().supports(field)),
    ;

    /// The format of the tag.
    fn tag_type(&self) -> (tag_type: TagType)
        requires
            self.wf(),
        ensures
            tag_type == self.format(),
    ;

    /// The settings of the tag.
    fn config(&self) -> (config: &Config)
        requires
            self.wf(),
        ensures
            *config == self.settings(),
    ;

    /// Replaces the settings. No field changes.
    fn set_config(&mut self, config: Config)
        requires
            old(self).wf(),
        ensures
            final(self).wf(),
            final(self).format() == old(self).format(),
            final(self).settings() == config,
            final(self).fields() == old(self).fields(),
    ;

    /// The title, if the tag holds one.
    fn title(&self) -> (value: Option<&str>)
        requires
            self.wf(),
        ensures
            value.deep_view() == self.fields().title,
    ;

    /// Sets the title, where the format has one.
    fn set_title(&mut self, title: &str)
        requires
            old(self).wf(),
        ensures
            final(self).wf(),
            final(self).format() == old(self).format(),
            final(self).settings() == old(self).settings(),
            !old(self).format().supports(Field::Title) ==> *final(self) == *old(self),
            final(self).fields() == (if old(self).format().supports(Field::Title) {
                TagFields { title: Some(title@), ..old(self).fields() }
            } else {
                old(self).fields()
            }),
    ;

    /// Removes the title.
    fn remove_title(&mut self)
        requires
            old(self).wf(),
        ensures
            final(self).wf(),
            final(self).format() == old(self).format(),
            final(self).settings() == old(self).settings(),
            !old(self).format().supports(Field::Title) ==> *final(self) == *old(self),
            final(self).fields() == (TagFields { title: None, ..old(self).fields() }),
    ;

    /// The artist, if the tag holds one.
    fn artist(&self) -> (value: Option<&str>)
        requires
            self.wf(),
        ensures
            value.deep_view() == self.fields().artist,
    ;

    /// Sets the artist, where the format has one.
    fn set_artist(&mut self, artist: &str)
        requires
            old(self).wf(),
        ensures
            final(self).wf(),
            final(self).format() == old(self).format(),
            final(self).settings() == old(self).settings(),
            !old(self).format().supports(Field::Artist) ==> *final(self) == *old(self),
            final(self).fields() == (if old(self).format().supports(Field::Artist) {
                TagFields { artist: Some(artist@), ..old(self).fields() }
            } else {
                old(self).fields()
            }),
    ;

    /// Removes the artist.
    fn remove_artist(&mut self)
        requires
            old(self).wf(),
        ensures
            final(self).wf(),
            final(self).format() == old(self).format(),
            final(self).settings() == old(self).settings(),
            !old(self).format().supports(Field::Artist) ==> *final(self) == *old(self),
            final(self).fields() == (TagFields { artist: None, ..old(self).fields() }),
    ;

    /// The year, if the tag holds one.
    fn year(&self) -> (value: Option<i32>)
        requires
            self.wf(),
        ensures
            value == self.fields().year,
    ;

    /// Sets the year, where the format has one.
    fn set_year(&mut self, year: i32)
        requires
            old(self).wf(),
        ensures
            final(self).wf(),
            final(self).format() == old(self).format(),
            final(self).settings() == old(self).settings(),
            !old(self).format().supports(Field::Year) ==> *final(self) == *old(self),
            final(self).fields() == (if old(self).format().supports(Field::Year) {
                TagFields { year: Some(year), ..old(self).fields() }
            } else {
                old(self).fields()
            }),
    ;

    /// Removes the year.
    fn remove_year(&mut self)
        requires
            old(self).wf(),
        ensures
            final(self).wf(),
            final(self).format() == old(self).format(),
            final(self).settings() == old(self).settings(),
            !old(self).format().supports(Field::Year) ==> *final(self) == *old(self),
            final(self).fields() == (TagFields { year: None, ..old(self).fields() }),
    ;

    /// The album title, if the tag holds one.
    fn album_title(&self) -> (value: Option<&str>)
        requires
            self.wf(),
        ensures
            value.deep_view() == self.fields().album_title,
    ;

    /// Sets the album title, where the format has one.
    fn set_album_title(&mut self, album_title: &str)
        requires
            old(self).wf(),
        ensures
            final(self).wf(),
            final(self).format() == old(self).format(),
            final(self).settings() == old(self).settings(),
            !old(self).format().supports(Field::AlbumTitle) ==> *final(self) == *old(self),
            final(self).fields() == (if old(self).format().supports(Field::AlbumTitle) {
                TagFields { album_title: Some(album_title@), ..old(self).fields() }
            } else {
                old(self).fields()
            }),
    ;

    /// Removes the album title.
    fn remove_album_title(&mut self)
        requires
            old(self).wf(),
        ensures
            final(self).wf(),
            final(self).format() == old(self).format(),
            final(self).settings() == old(self).settings(),
            !old(self).format().supports(Field::AlbumTitle) ==> *final(self) == *old(self),
            final(self).fields() == (TagFields { album_title: None, ..old(self).fields() }),
    ;

    /// The album artist, if the tag holds one.
    fn album_artist(&self) -> (value: Option<&str>)
        requires
            self.wf(),
        ensures
            value.deep_view() == self.fields().album_artist,
    ;

    /// Sets the album artist, where the format has one.
    fn set_album_artist(&mut self, album_artist: &str)
        requires
            old(self).wf(),
        ensures
            final(self).wf(),
            final(self).format() == old(self).format(),
            final(self).settings() == old(self).settings(),
            !old(self).format().supports(Field::AlbumArtist) ==> *final(self) == *old(self),
            final(self).fields() == (if old(self).format().supports(Field::AlbumArtist) {
                TagFields { album_artist: Some(album_artist@), ..old(self).fields() }
            } else {
                old(self).fields()
            }),
    ;

    /// Removes the album artist.
    fn remove_album_artist(&mut self)
        requires
            old(self).wf(),
        ensures
            final(self).wf(),
            final(self).format() == old(self).format(),
            final(self).settings() == old(self).settings(),
            !old(self).format().supports(Field::AlbumArtist) ==> *final(self) == *old(self),
            final(self).fields() == (TagFields { album_artist: None, ..old(self).fields() }),
    ;

    /// The album cover, if the tag holds one.
    fn album_cover(&self) -> (value: Option<Picture>)
        requires
            self.wf(),
        ensures
            cover_view(value) == self.fields().album_cover,
    ;

    /// Sets the album cover, where the format has one.
    fn set_album_cover(&mut self, cover: Picture)
        requires
            old(self).wf(),
        ensures
            final(self).wf(),
            final(self).format() == old(self).format(),
            final(self).settings() == old(self).settings(),
            !old(self).format().supports(Field::AlbumCover) ==> *final(self) == *old(self),
            final(self).fields() == (if old(self).format().supports(Field::AlbumCover) {
                TagFields { album_cover: Some(cover@), ..old(self).fields() }
            } else {
                old(self).fields()
            }),
    ;

    /// Removes the album cover.
    fn remove_album_cover(&mut self)
        requires
            old(self).wf(),
        ensures
            final(self).wf(),
            final(self).format() == old(self).format(),
            final(self).settings() == old(self).settings(),
            !old(self).format().supports(Field::AlbumCover) ==> *final(self) == *old(self),
            final(self).fields() == (TagFields { album_cover: None, ..old(self).fields() }),
    ;

    /// The composer, if the tag holds one.
    fn composer(&self) -> (value: Option<&str>)
        requires
            self.wf(),
        ensures
            value.deep_view() == self.fields().composer,
    ;

    /// Sets the composer, where the format has one.
    fn set_composer(&mut self, composer: String)
        requires
            old(self).wf(),
        ensures
            final(self).wf(),
            final(self).format() == old(self).format(),
            final(self).settings() == old(self).settings(),
            !old(self).format().supports(Field::Composer) ==> *final(self) == *old(self),
            final(self).fields() == (if old(self).format().supports(Field::Composer) {
                TagFields { composer: Some(composer@), ..old(self).fields() }
            } else {
                old(self).fields()
            }),
    ;

    /// Removes the composer.
    fn remove_composer(&mut self)
        requires
            old(self).wf(),
        ensures
            final(self).wf(),
            final(self).format() == old(self).format(),
            final(self).settings() == old(self).settings(),
            !old(self).format().supports(Field::Composer) ==> *final(self) == *old(self),
            final(self).fields() == (TagFields { composer: None, ..old(self).fields() }),
    ;

    /// The track number, if the tag holds one.
    fn track_number(&self) -> (value: Option<u16>)
        requires
            self.wf(),
        ensures
            value == self.fields().track_number,
    ;

    /// Sets the track number, where the format has one.
    fn set_track_number(&mut self, track_number: u16)
        requires
            old(self).wf(),
        ensures
            final(self).wf(),
            final(self).format() == old(self).format(),
            final(self).settings() == old(self).settings(),
            !old(self).format().supports(Field::TrackNumber) ==> *final(self) == *old(self),
            final(self).fields() == (if old(self).format().supports(Field::TrackNumber) {
                TagFields { track_number: Some(track_number), ..old(self).fields() }
            } else {
                old(self).fields()
            }),
    ;

    /// Removes the track number.
    fn remove_track_number(&mut self)
        requires
            old(self).wf(),
        ensures
            final(self).wf(),
            final(self).format() == old(self).format(),
            final(self).settings() == old(self).settings(),
            !old(self).format().supports(Field::TrackNumber) ==> *final(self) == *old(self),
            final(self).fields() == (TagFields { track_number: None, ..old(self).fields() }),
    ;

    /// The number of tracks, if the tag holds one.
    fn total_tracks(&self) -> (value: Option<u16>)
        requires
            self.wf(),
        ensures
            value == self.fields().total_tracks,
    ;

    /// Sets the number of tracks, where the format has one.
    fn set_total_tracks(&mut self, total_tracks: u16)
        requires
            old(self).wf(),
        ensures
            final(self).wf(),
            final(self).format() == old(self).format(),
            final(self).settings() == old(self).settings(),
            !old(self).format().supports(Field::TotalTracks) ==> *final(self) == *old(self),
            final(self).fields() == (if old(self).format().supports(Field::TotalTracks) {
                TagFields { total_tracks: Some(total_tracks), ..old(self).fields() }
            } else {
                old(self).fields()
            }),
    ;

    /// Removes the number of tracks.
    fn remove_total_tracks(&mut self)
        requires
            old(self).wf(),
        ensures
            final(self).wf(),
            final(self).format() == old(self).format(),
            final(self).settings() == old(self).settings(),
            !old(self).format().supports(Field::TotalTracks) ==> *final(self) == *old(self),
            final(self).fields() == (TagFields { total_tracks: None, ..old(self).fields() }),
    ;

    /// The disc number, if the tag holds one.
    fn disc_number(&self) -> (value: Option<u16>)
        requires
            self.wf(),
        ensures
            value == self.fields().disc_number,
    ;

    /// Sets the disc number, where the format has one.
    fn set_disc_number(&mut self, disc_number: u16)
        requires
            old(self).wf(),
        ensures
            final(self).wf(),
            final(self).format() == old(self).format(),
            final(self).settings() == old(self).settings(),
            !old(self).format().supports(Field::DiscNumber) ==> *final(self) == *old(self),
            final(self).fields() == (if old(self).format().supports(Field::DiscNumber) {
                TagFields { disc_number: Some(disc_number), ..old(self).fields() }
            } else {
                old(self).fields()
            }),
    ;

    /// Removes the disc number.
    fn remove_disc_number(&mut self)
        requires
            old(self).wf(),
        ensures
            final(self).wf(),
            final(self).format() == old(self).format(),
            final(self).settings() == old(self).settings(),
            !old(self).format().supports(Field::DiscNumber) ==> *final(self) == *old(self),
            final(self).fields() == (TagFields { disc_number: None, ..old(self).fields() }),
    ;

    /// The number of discs, if the tag holds one.
    fn total_discs(&self) -> (value: Option<u16>)
        requires
            self.wf(),
        ensures
            value == self.fields().total_discs,
    ;

    /// Sets the number of discs, where the format has one.
    fn set_total_discs(&mut self, total_discs: u16)
        requires
            old(self).wf(),
        ensures
            final(self).wf(),
            final(self).format() == old(self).format(),
            final(self).settings() == old(self).settings(),
            !old(self).format().supports(Field::TotalDiscs) ==> *final(self) == *old(self),
            final(self).fields() == (if old(self).format().supports(Field::TotalDiscs) {
                TagFields { total_discs: Some(total_discs), ..old(self).fields() }
            } else {
                old(self).fields()
            }),
    ;

    /// Removes the number of discs.
    fn remove_total_discs(&mut self)
        requires
            old(self).wf(),
        ensures
            final(self).wf(),
            final(self).format() == old(self).format(),
            final(self).settings() == old(self).settings(),
            !old(self).format().supports(Field::TotalDiscs) ==> *final(self) == *old(self),
            final(self).fields() == (TagFields { total_discs: None, ..old(self).fields() }),
    ;

    /// The genre, if the tag holds one.
    fn genre(&self) -> (value: Option<&str>)
        requires
            self.wf(),
        ensures
            value.deep_view() == self.fields().genre,
    ;

    /// Sets the genre, where the format has one.
    fn set_genre(&mut self, genre: &str)
        requires
            old(self).wf(),
        ensures
            final(self).wf(),
            final(self).format() == old(self).format(),
            final(self).settings() == old(self).settings(),
            !old(self).format().supports(Field::Genre) ==> *final(self) == *old(self),
            final(self).fields() == (if old(self).format().supports(Field::Genre) {
                TagFields { genre: Some(genre@), ..old(self).fields() }
            } else {
                old(self).fields()
            }),
    ;

    /// Removes the genre.
    fn remove_genre(&mut self)
        requires
            old(self).wf(),
        ensures
            final(self).wf(),
            final(self).format() == old(self).format(),
            final(self).settings() == old(self).settings(),
            !old(self).format().supports(Field::Genre) ==> *final(self) == *old(self),
            final(self).fields() == (TagFields { genre: None, ..old(self).fields() }),
    ;

    /// The comment, if the tag holds one.
    fn comment(&self) -> (value: Option<&str>)
        requires
            self.wf(),
        ensures
            value.deep_view() == self.fields().comment,
    ;

    /// Sets the comment, where the format has one.
    fn set_comment(&mut self, comment: String)
        requires
            old(self).wf(),
        ensures
            final(self).wf(),
            final(self).format() == old(self).format(),
            final(self).settings() == old(self).settings(),
            !old(self).format().supports(Field::Comment) ==> *final(self) == *old(self),
            final(self).fields() == (if old(self).format().supports(Field::Comment) {
                TagFields { comment: Some(comment@), ..old(self).fields() }
            } else {
                old(self).fields()
            }),
    ;

    /// Removes the comment.
    fn remove_comment(&mut self)
        requires
            old(self).wf(),
        ensures
            final(self).wf(),
            final(self).format() == old(self).format(),
            final(self).settings() == old(self).settings(),
            !old(self).format().supports(Field::Comment) ==> *final(self) == *old(self),
            final(self).fields() == (TagFields { comment: None, ..old(self).fields() }),
    ;

    /// The length of the audio in milliseconds, where the tag knows it.
    fn duration(&self) -> (value: Option<u64>)
        requires
            self.wf(),
        ensures
            value == self.fields().duration,
    ;

    /// The artists one by one: the artist text cut at the separator of the
    /// settings, or as a single value where the settings say so.
    fn artists(&self) -> (values: Option<Vec<String>>)
        requires
            self.wf(),
        ensures
            values.deep_view() == artists_of(self.fields().artist, self.settings()),
    ;

    /// The album artists one by one, cut like the artists.
    fn album_artists(&self) -> (values: Option<Vec<String>>)
        requires
            self.wf(),
        ensures
            values.deep_view() == artists_of(self.fields().album_artist, self.settings()),
    ;
}

/// The values of a field of several artists, from its text.
pub fn split_artists(artist: Option<&str>, config: &Config) -> (values: Option<Vec<String>>)
    ensures
        values.deep_view() == artists_of(artist.deep_view(), *config),
{
    match artist {
        Some(text) => {
            if config.parse_multiple_artists {
                Some(crate::text::split(text, config.sep_artist))
            } else {
                let mut values: Vec<String> = Vec::new();
                values.push(String::from_str(text));
                assert(values.deep_view() =~= seq![text@]);
                Some(values)
            }
        },
        None => None,
    }
}

} // verus!
