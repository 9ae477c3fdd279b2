//! The neutral record: a snapshot of every field, free of any one format.
//!
//! A record owns its values. Converting a tag of one format into another
//! goes through a record, so that no format needs to know of another.

use crate::config::Config;
use crate::fields::{MimeType, PictureView};
use crate::text::{join, join_text};
use vstd::prelude::*;

verus! {

/// A cover image: its bytes and its kind.
#[derive(Debug)]
pub struct Picture {
    pub data: Vec<u8>,
    pub mime_type: MimeType,
}

impl View for Picture {
    type V = PictureView;

    open spec fn view(&self) -> PictureView {
        PictureView { data: self.data@, mime_type: self.mime_type }
    }
}

impl Picture {
    /// A cover made of `data`, which holds an image of the kind `mime_type`.
    pub fn new(data: Vec<u8>, mime_type: MimeType) -> (picture: Self)
        ensures
            picture@ == (PictureView { data: data@, mime_type }),
    {
        Picture { data, mime_type }
    }
}

impl Clone for Picture {
    fn clone(&self) -> (copy: Self)
        ensures
            copy@ == self@,
    {
        let mut data: Vec<u8> = Vec::new();
        let mut i: usize = 0;
        while i < self.data.len()
            invariant
                i <= self.data.len(),
                data@ == self.data@.subrange(0, i as int),
            decreases self.data.len() - i,
        {
            data.push(self.data[i]);
            assert(data@ =~= self.data@.subrange(0, i + 1));
            i = i + 1;
        }
        assert(data@ =~= self.data@);
        Picture { data, mime_type: self.mime_type }
    }
}

/// The cover of a record or tag as a value.
pub open spec fn cover_view(cover: Option<Picture>) -> Option<PictureView> {
    match cover {
        Some(picture) => Some(picture@),
        None => None,
    }
}

/// The neutral record. Each field is `None` where the record holds no value
/// for it.
#[derive(Debug)]
pub struct AnyTag {
    pub config: Config,
    pub title: Option<String>,
    pub artists: Option<Vec<String>>,
    pub year: Option<i32>,
    /// Length of the audio in milliseconds; a hint that is never written.
    pub duration: Option<u64>,
    pub album_title: Option<String>,
    pub album_artists: Option<Vec<String>>,
    pub album_cover: Option<Picture>,
    pub track_number: Option<u16>,
    pub total_tracks: Option<u16>,
    pub disc_number: Option<u16>,
    pub total_discs: Option<u16>,
    pub genre: Option<String>,
    pub composer: Option<String>,
    pub comment: Option<String>,
}

/// A record as a value: texts are sequences of characters, and a field of
/// several values is a sequence of texts.
pub struct AnyTagView {
    pub config: Config,
    pub title: Option<Seq<char>>,
    pub artists: Option<Seq<Seq<char>>>,
    pub year: Option<i32>,
    pub duration: Option<u64>,
    pub album_title: Option<Seq<char>>,
    pub album_artists: Option<Seq<Seq<char>>>,
    pub album_cover: Option<PictureView>,
    pub track_number: Option<u16>,
    pub total_tracks: Option<u16>,
    pub disc_number: Option<u16>,
    pub total_discs: Option<u16>,
    pub genre: Option<Seq<char>>,
    pub composer: Option<Seq<char>>,
    pub comment: Option<Seq<char>>,
}

impl AnyTagView {
    /// The record that holds nothing, with the settings `config`.
    pub open spec fn empty(config: Config) -> AnyTagView {
        AnyTagView {
            config,
            title: None,
            artists: None,
            year: None,
            duration: None,
            album_title: None,
            album_artists: None,
            album_cover: None,
            track_number: None,
            total_tracks: None,
            disc_number: None,
            total_discs: None,
            genre: None,
            composer: None,
            comment: None,
        }
    }

    /// The artists as one text, joined by the separator of the settings.
    pub open spec fn artists_as_string(self) -> Option<Seq<char>> {
        match self.artists {
            Some(artists) => Some(join_text(artists, self.config.sep_artist@)),
            None => None,
        }
    }

    /// The album artists as one text, joined by the separator of the
    /// settings.
    pub open spec fn album_artists_as_string(self) -> Option<Seq<char>> {
        match self.album_artists {
            Some(artists) => Some(join_text(artists, self.config.sep_artist@)),
            None => None,
        }
    }
}

impl View for AnyTag {
    type V = AnyTagView;

    open spec fn view(&self) -> AnyTagView {
        AnyTagView {
            config: self.config,
            title: self.title.deep_view(),
            artists: self.artists.deep_view(),
            year: self.year,
            duration: self.duration,
            album_title: self.album_title.deep_view(),
            album_artists: self.album_artists.deep_view(),
            album_cover: cover_view(self.album_cover),
            track_number: self.track_number,
            total_tracks: self.total_tracks,
            disc_number: self.disc_number,
            total_discs: self.total_discs,
            genre: self.genre.deep_view(),
            composer: self.composer.deep_view(),
            comment: self.comment.deep_view(),
        }
    }
}

/// A view of an optional text that borrows it.
pub fn as_text(text: &Option<String>) -> (r: Option<&str>)
    ensures
        r.deep_view() == text.deep_view(),
{
    match text {
        Some(s) => Some(s.as_str()),
        None => None,
    }
}

impl AnyTag {
    /// A record that holds nothing, with the settings `config`.
    pub fn new(config: Config) -> (record: Self)
        ensures
            record@ == AnyTagView::empty(config),
    {
        AnyTag {
            config,
            title: None,
            artists: None,
            year: None,
            duration: None,
            album_title: None,
            album_artists: None,
            album_cover: None,
            track_number: None,
            total_tracks: None,
            disc_number: None,
            total_discs: None,
            genre: None,
            composer: None,
            comment: None,
        }
    }

    /// The title, if the record holds one.
    pub fn title(&self) -> (value: Option<&str>)
        ensures
            value.deep_view() == self@.title,
    {
        as_text(&self.title)
    }

    /// The artists, if the record holds any.
    pub fn artists(&self) -> (values: Option<&Vec<String>>)
        ensures
            values.deep_view() == self@.artists,
    {
        self.artists.as_ref()
    }

    /// The year, if the record holds one.
    pub fn year(&self) -> (value: Option<i32>)
        ensures
            value == self@.year,
    {
        self.year
    }

    /// The length of the audio in milliseconds, if the record holds one.
    pub fn duration(&self) -> (value: Option<u64>)
        ensures
            value == self@.duration,
    {
        self.duration
    }

    /// The album title, if the record holds one.
    pub fn album_title(&self) -> (value: Option<&str>)
        ensures
            value.deep_view() == self@.album_title,
    {
        as_text(&self.album_title)
    }

    /// The album artists, if the record holds any.
    pub fn album_artists(&self) -> (values: Option<&Vec<String>>)
        ensures
            values.deep_view() == self@.album_artists,
    {
        self.album_artists.as_ref()
    }

    /// The album cover, if the record holds one.
    pub fn album_cover(&self) -> (cover: Option<&Picture>)
        ensures
            match cover {
                Some(picture) => self@.album_cover == Some(picture@),
                None => self@.album_cover is None,
            },
    {
        self.album_cover.as_ref()
    }

    /// The track number, if the record holds one.
    pub fn track_number(&self) -> (value: Option<u16>)
        ensures
            value == self@.track_number,
    {
        self.track_number
    }

    /// The number of tracks, if the record holds one.
    pub fn total_tracks(&self) -> (value: Option<u16>)
        ensures
            value == self@.total_tracks,
    {
        self.total_tracks
    }

    /// The disc number, if the record holds one.
    pub fn disc_number(&self) -> (value: Option<u16>)
        ensures
            value == self@.disc_number,
    {
        self.disc_number
    }

    /// The number of discs, if the record holds one.
    pub fn total_discs(&self) -> (value: Option<u16>)
        ensures
            value == self@.total_discs,
    {
        self.total_discs
    }

    /// The genre, if the record holds one.
    pub fn genre(&self) -> (value: Option<&str>)
        ensures
            value.deep_view() == self@.genre,
    {
        as_text(&self.genre)
    }

    /// The composer, if the record holds one.
    pub fn composer(&self) -> (value: Option<&str>)
        ensures
            value.deep_view() == self@.composer,
    {
        as_text(&self.composer)
    }

    /// The comment, if the record holds one.
    pub fn comment(&self) -> (value: Option<&str>)
        ensures
            value.deep_view() == self@.comment,
    {
        as_text(&self.comment)
    }

    /// The artists as one text: joined by the separator of the settings, so
    /// that a format with a single artist field can hold them.
    pub fn artists_as_string(&self) -> (joined: Option<String>)
        ensures
            joined.deep_view() == self@.artists_as_string(),
    {
        match &self.artists {
            Some(artists) => Some(join(artists, self.config.sep_artist)),
            None => None,
        }
    }

    /// The album artists as one text, joined by the separator of the
    /// settings.
    pub fn album_artists_as_string(&self) -> (joined: Option<String>)
        ensures
            joined.deep_view() == self@.album_artists_as_string(),
    {
        match &self.album_artists {
            Some(artists) => Some(join(artists, self.config.sep_artist)),
            None => None,
        }
    }
}

} // verus!
