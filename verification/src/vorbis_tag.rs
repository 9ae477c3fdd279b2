//! The adapter for Vorbis comment headers.
//!
//! A Vorbis comment header is a list of named comments. The adapter keeps
//! title, artist, album title, genre and comment as texts under their names,
//! and year and track number as decimal text. It has no place for an album
//! artist, a cover, a composer, the number of tracks, or discs.

use crate::comments::{
    add_comment, clear_comments, comment_list, empty_header, first_comment, first_value, folded,
    lemma_first_value_with_single, lemma_first_value_without, with_single, without_tag, Comment,
};
use crate::config::Config;
use crate::convert::{lemma_round_trip_of_tag, record_of, replayed, to_record};
use crate::decimal::{
    decimal_text, format_i32, format_u16, i32_value, lemma_decimal_round_trip, parse_i32,
    parse_u16, u16_value,
};
use crate::edit::{split_artists, AudioTagEdit};
use crate::error::Error;
use crate::fields::{Field, TagFields};
use crate::record::{as_text, AnyTag, AnyTagView, Picture};
use crate::tag_type::TagType;
use crate::vorbis_keys::{lemma_key_is_ascii, lemma_keys_differ, CommentKey};
use oggvorbismeta::CommentHeader;
use vstd::prelude::*;

verus! {

/// A Vorbis comment header, as the parser of the format hands it over and as
/// its writer takes it.
pub struct VorbisInnerTag {
    inner: CommentHeader,
}

impl VorbisInnerTag {
    /// The comments that the header holds, in order.
    pub closed spec fn comments(&self) -> Seq<Comment> {
        comment_list(self.inner)
    }

    /// A header without comments.
    pub fn new() -> (tag: Self)
        ensures
            tag.comments() == Seq::<Comment>::empty(),
    {
        VorbisInnerTag { inner: empty_header() }
    }

    /// Takes over a header that a parser produced.
    pub fn from_header(header: CommentHeader) -> (tag: Self)
        ensures
            tag.comments() == comment_list(header),
    {
        VorbisInnerTag { inner: header }
    }

    /// The header, for a writer to serialise.
    pub fn header(&self) -> (header: &CommentHeader)
        ensures
            comment_list(*header) == self.comments(),
    {
        &self.inner
    }

    /// Gives the header away.
    pub fn into_header(self) -> (header: CommentHeader)
        ensures
            comment_list(header) == self.comments(),
    {
        self.inner
    }

    /// The value of the first comment named `tag`, if there is one.
    pub fn get_tag_single(&self, tag: &str) -> (value: Option<String>)
        ensures
            value.deep_view() == first_value(self.comments(), tag@),
    {
        first_comment(&self.inner, tag)
    }

    /// Removes every comment named `tag`.
    pub fn clear_tag(&mut self, tag: &str)
        ensures
            final(self).comments() == without_tag(old(self).comments(), tag@),
    {
        clear_comments(&mut self.inner, tag);
    }

    /// Adds the comment `tag = value` behind those that are there.
    pub fn add_tag_single(&mut self, tag: &str, value: &str)
        ensures
            final(self).comments() == old(self).comments().push((folded(tag@), value@)),
    {
        add_comment(&mut self.inner, tag, value);
        assert(self.comments() =~= old(self).comments().push((folded(tag@), value@)));
    }

    /// Makes `tag = value` the only comment named `tag`.
    pub fn set_tag_single(&mut self, tag: &str, value: &str)
        ensures
            final(self).comments() == with_single(old(self).comments(), tag@, value@),
    {
        self.clear_tag(tag);
        self.add_tag_single(tag, value);
    }

    /// Stores `value` under `key` where there is a value to store.
    fn store(&mut self, key: CommentKey, value: Option<&str>)
        ensures
            final(self).comments() == stored(old(self).comments(), key, value.deep_view()),
    {
        match value {
            Some(text) => self.set_tag_single(key.name(), text),
            None => {},
        }
    }
}

impl Default for VorbisInnerTag {
    fn default() -> (tag: Self)
        ensures
            tag.comments() == Seq::<Comment>::empty(),
    {
        VorbisInnerTag::new()
    }
}

/// What a numeric field shows for the stored text: the number, or nothing
/// where there is no text or the text is malformed.
pub open spec fn year_of(stored: Option<Seq<char>>) -> Option<i32> {
    match stored {
        Some(text) => i32_value(text),
        None => None,
    }
}

/// What the track number shows for the stored text.
pub open spec fn track_of(stored: Option<Seq<char>>) -> Option<u16> {
    match stored {
        Some(text) => u16_value(text),
        None => None,
    }
}

/// The fields that a comment list shows: each field is read from the first
/// comment under its name.
pub open spec fn vorbis_fields(list: Seq<Comment>) -> TagFields {
    TagFields {
        title: first_value(list, CommentKey::Title.text()),
        artist: first_value(list, CommentKey::Artist.text()),
        year: year_of(first_value(list, CommentKey::Date.text())),
        album_title: first_value(list, CommentKey::Album.text()),
        album_artist: None,
        album_cover: None,
        composer: None,
        track_number: track_of(first_value(list, CommentKey::TrackNumber.text())),
        total_tracks: None,
        disc_number: None,
        total_discs: None,
        genre: first_value(list, CommentKey::Genre.text()),
        comment: first_value(list, CommentKey::Description.text()),
        duration: None,
    }
}

/// After `key` was set to `value`, the field under `key` shows `value` and
/// every other field shows what it showed.
pub proof fn lemma_fields_after_set(list: Seq<Comment>, key: CommentKey, value: Seq<char>)
    ensures
        vorbis_fields(with_single(list, key.text(), value)) == (match key {
            CommentKey::Title => TagFields { title: Some(value), ..vorbis_fields(list) },
            CommentKey::Artist => TagFields { artist: Some(value), ..vorbis_fields(list) },
            CommentKey::Date => TagFields { year: i32_value(value), ..vorbis_fields(list) },
            CommentKey::Album => TagFields { album_title: Some(value), ..vorbis_fields(list) },
            CommentKey::TrackNumber => TagFields {
                track_number: u16_value(value),
                ..vorbis_fields(list)
            },
            CommentKey::Genre => TagFields { genre: Some(value), ..vorbis_fields(list) },
            CommentKey::Description => TagFields { comment: Some(value), ..vorbis_fields(list) },
        }),
{
    lemma_key_is_ascii(key);
    lemma_lookup_after_set(list, key, value, CommentKey::Title);
    lemma_lookup_after_set(list, key, value, CommentKey::Artist);
    lemma_lookup_after_set(list, key, value, CommentKey::Date);
    lemma_lookup_after_set(list, key, value, CommentKey::Album);
    lemma_lookup_after_set(list, key, value, CommentKey::TrackNumber);
    lemma_lookup_after_set(list, key, value, CommentKey::Genre);
    lemma_lookup_after_set(list, key, value, CommentKey::Description);
}

/// After `key` was set, a reader of `other` finds the new value under `key`
/// itself and the old one under any other name.
proof fn lemma_lookup_after_set(
    list: Seq<Comment>,
    key: CommentKey,
    value: Seq<char>,
    other: CommentKey,
)
    ensures
        first_value(with_single(list, key.text(), value), other.text()) == if other == key {
            Some(value)
        } else {
            first_value(list, other.text())
        },
{
    lemma_key_is_ascii(key);
    lemma_keys_differ(other, key);
    lemma_first_value_with_single(list, key.text(), value, other.text());
}

/// After the comments under `key` were removed, the field under `key` is
/// absent and every other field shows what it showed.
pub proof fn lemma_fields_after_remove(list: Seq<Comment>, key: CommentKey)
    ensures
        vorbis_fields(without_tag(list, key.text())) == (match key {
            CommentKey::Title => TagFields { title: None, ..vorbis_fields(list) },
            CommentKey::Artist => TagFields { artist: None, ..vorbis_fields(list) },
            CommentKey::Date => TagFields { year: None, ..vorbis_fields(list) },
            CommentKey::Album => TagFields { album_title: None, ..vorbis_fields(list) },
            CommentKey::TrackNumber => TagFields { track_number: None, ..vorbis_fields(list) },
            CommentKey::Genre => TagFields { genre: None, ..vorbis_fields(list) },
            CommentKey::Description => TagFields { comment: None, ..vorbis_fields(list) },
        }),
{
    lemma_lookup_after_remove(list, key, CommentKey::Title);
    lemma_lookup_after_remove(list, key, CommentKey::Artist);
    lemma_lookup_after_remove(list, key, CommentKey::Date);
    lemma_lookup_after_remove(list, key, CommentKey::Album);
    lemma_lookup_after_remove(list, key, CommentKey::TrackNumber);
    lemma_lookup_after_remove(list, key, CommentKey::Genre);
    lemma_lookup_after_remove(list, key, CommentKey::Description);
}

/// After the comments under `key` were removed, a reader of `other` finds
/// nothing under `key` itself and the old value under any other name.
proof fn lemma_lookup_after_remove(list: Seq<Comment>, key: CommentKey, other: CommentKey)
    ensures
        first_value(without_tag(list, key.text()), other.text()) == if other == key {
            None
        } else {
            first_value(list, other.text())
        },
{
    lemma_keys_differ(other, key);
    lemma_first_value_without(list, key.text(), other.text());
}

/// `list` after `value` was stored under `key`: as it was where there is no
/// value, else with the one comment `key = value` under that name.
pub open spec fn stored(list: Seq<Comment>, key: CommentKey, value: Option<Seq<char>>) -> Seq<
    Comment,
> {
    match value {
        Some(text) => with_single(list, key.text(), text),
        None => list,
    }
}

/// The decimal text of a year that is there.
pub open spec fn year_text(year: Option<i32>) -> Option<Seq<char>> {
    match year {
        Some(number) => Some(decimal_text(number as int)),
        None => None,
    }
}

/// The decimal text of a track number that is there.
pub open spec fn track_text(track: Option<u16>) -> Option<Seq<char>> {
    match track {
        Some(number) => Some(decimal_text(number as int)),
        None => None,
    }
}

/// The comment list of the header that is made from `record`: one comment
/// for each field that the record holds and the format has a place for, in
/// the order title, artist, date, album, track number, genre, description.
pub open spec fn vorbis_comments_of(record: AnyTagView) -> Seq<Comment> {
    let list = stored(Seq::<Comment>::empty(), CommentKey::Title, record.title);
    let list = stored(list, CommentKey::Artist, record.artists_as_string());
    let list = stored(list, CommentKey::Date, year_text(record.year));
    let list = stored(list, CommentKey::Album, record.album_title);
    let list = stored(list, CommentKey::TrackNumber, track_text(record.track_number));
    let list = stored(list, CommentKey::Genre, record.genre);
    stored(list, CommentKey::Description, record.comment)
}

/// The header made from a record shows what writing the record into an
/// empty tag of the format is to show.
pub proof fn lemma_fields_of_record(record: AnyTagView)
    ensures
        vorbis_fields(vorbis_comments_of(record)) == replayed(
            TagFields::empty(),
            record,
            |field: Field| TagType::Vorbis.supports(field),
        ),
{
    lemma_empty_list_shows_nothing();
    let l0 = Seq::<Comment>::empty();
    let l1 = stored(l0, CommentKey::Title, record.title);
    let l2 = stored(l1, CommentKey::Artist, record.artists_as_string());
    let l3 = stored(l2, CommentKey::Date, year_text(record.year));
    let l4 = stored(l3, CommentKey::Album, record.album_title);
    let l5 = stored(l4, CommentKey::TrackNumber, track_text(record.track_number));
    let l6 = stored(l5, CommentKey::Genre, record.genre);
    let l7 = stored(l6, CommentKey::Description, record.comment);
    if record.title is Some {
        lemma_fields_after_set(l0, CommentKey::Title, record.title->0);
    }
    if record.artists is Some {
        lemma_fields_after_set(l1, CommentKey::Artist, record.artists_as_string()->0);
    }
    if record.year is Some {
        lemma_fields_after_set(l2, CommentKey::Date, year_text(record.year)->0);
        lemma_decimal_round_trip(record.year->0 as int, true);
    }
    if record.album_title is Some {
        lemma_fields_after_set(l3, CommentKey::Album, record.album_title->0);
    }
    if record.track_number is Some {
        lemma_fields_after_set(l4, CommentKey::TrackNumber, track_text(record.track_number)->0);
        lemma_decimal_round_trip(record.track_number->0 as int, false);
    }
    if record.genre is Some {
        lemma_fields_after_set(l5, CommentKey::Genre, record.genre->0);
    }
    if record.comment is Some {
        lemma_fields_after_set(l6, CommentKey::Description, record.comment->0);
    }
    assert(vorbis_fields(l1).title == record.title);
    assert(vorbis_fields(l2).artist == record.artists_as_string());
    assert(vorbis_fields(l3).year == record.year);
    assert(vorbis_fields(l4).album_title == record.album_title);
    assert(vorbis_fields(l5).track_number == record.track_number);
    assert(vorbis_fields(l6).genre == record.genre);
    assert(vorbis_fields(l7).comment == record.comment);
}

/// A Vorbis tag that is turned into a record and made anew from it shows
/// every field as before: each text character for character, each number
/// with its value.
pub proof fn lemma_vorbis_round_trip(tag: &VorbisTag)
    requires
        tag.wf(),
    ensures
        vorbis_fields(vorbis_comments_of(record_of(tag.fields(), tag.settings()))) == tag.fields(),
{
    lemma_fields_of_record(record_of(tag.fields(), tag.settings()));
    lemma_round_trip_of_tag(tag);
}

/// A tag in a Vorbis comment header.
///
/// Beside the header the tag keeps a copy of each text field, so that a
/// reader can borrow the text. The copies always agree with the header: every
/// change goes to both.
pub struct VorbisTag {
    inner: VorbisInnerTag,
    config: Config,
    title: Option<String>,
    artist: Option<String>,
    album_title: Option<String>,
    genre: Option<String>,
    comment: Option<String>,
}

impl VorbisTag {
    /// The comments of the header, in order.
    pub closed spec fn comments(&self) -> Seq<Comment> {
        self.inner.comments()
    }

    /// The settings of the tag.
    pub closed spec fn config_of(&self) -> Config {
        self.config
    }

    /// Whether the copies of the text fields agree with the header.
    pub closed spec fn coherent(&self) -> bool {
        let shown = vorbis_fields(self.inner.comments());
        &&& self.title.deep_view() == shown.title
        &&& self.artist.deep_view() == shown.artist
        &&& self.album_title.deep_view() == shown.album_title
        &&& self.genre.deep_view() == shown.genre
        &&& self.comment.deep_view() == shown.comment
    }

    /// A tag without any field, with the default settings.
    pub fn new() -> (tag: Self)
        ensures
            tag.wf(),
            tag.comments() == Seq::<Comment>::empty(),
            tag.fields() == TagFields::empty(),
            tag.settings().sep_artist@ == seq![';'],
            tag.settings().parse_multiple_artists,
    {
        let tag = VorbisTag {
            inner: VorbisInnerTag::new(),
            config: Config::default(),
            title: None,
            artist: None,
            album_title: None,
            genre: None,
            comment: None,
        };
        proof {
            lemma_empty_list_shows_nothing();
        }
        tag
    }

    /// Wraps a header: the tag shows what the header holds, and has the
    /// default settings.
    pub fn from_inner(inner: VorbisInnerTag) -> (tag: Self)
        ensures
            tag.wf(),
            tag.comments() == inner.comments(),
            tag.settings().sep_artist@ == seq![';'],
            tag.settings().parse_multiple_artists,
    {
        let title = inner.get_tag_single(CommentKey::Title.name());
        let artist = inner.get_tag_single(CommentKey::Artist.name());
        let album_title = inner.get_tag_single(CommentKey::Album.name());
        let genre = inner.get_tag_single(CommentKey::Genre.name());
        let comment = inner.get_tag_single(CommentKey::Description.name());
        VorbisTag { inner, config: Config::default(), title, artist, album_title, genre, comment }
    }

    /// The header of the tag, for a writer to serialise.
    pub fn inner(&self) -> (inner: &VorbisInnerTag)
        ensures
            inner.comments() == self.comments(),
    {
        &self.inner
    }

    /// Gives the header away.
    pub fn into_inner(self) -> (inner: VorbisInnerTag)
        ensures
            inner.comments() == self.comments(),
    {
        self.inner
    }

    /// A snapshot of the tag as a neutral record.
    pub fn to_anytag(&self) -> (record: AnyTag)
        requires
            self.wf(),
        ensures
            record@ == record_of(self.fields(), self.settings()),
    {
        to_record(self)
    }

    /// Makes a tag from a record: a fresh header takes one comment for each
    /// field that the record holds and the format has a place for. Several
    /// artists become one text, joined by the separator of the record's
    /// settings; year and track number are written in decimal. What the
    /// format has no place for is dropped.
    pub fn from_anytag(record: AnyTag) -> (tag: Self)
        ensures
            tag.wf(),
            tag.settings() == record@.config,
            tag.comments() == vorbis_comments_of(record@),
            tag.fields() == replayed(
                TagFields::empty(),
                record@,
                |field: Field| TagType::Vorbis.supports(field),
            ),
    {
        let artist = record.artists_as_string();
        let year = match record.year {
            Some(number) => Some(format_i32(number)),
            None => None,
        };
        let track = match record.track_number {
            Some(number) => Some(format_u16(number)),
            None => None,
        };
        let mut inner = VorbisInnerTag::new();
        inner.store(CommentKey::Title, as_text(&record.title));
        inner.store(CommentKey::Artist, as_text(&artist));
        inner.store(CommentKey::Date, as_text(&year));
        inner.store(CommentKey::Album, as_text(&record.album_title));
        inner.store(CommentKey::TrackNumber, as_text(&track));
        inner.store(CommentKey::Genre, as_text(&record.genre));
        inner.store(CommentKey::Description, as_text(&record.comment));
        proof {
            lemma_fields_of_record(record@);
        }
        VorbisTag {
            inner,
            config: record.config,
            title: record.title,
            artist,
            album_title: record.album_title,
            genre: record.genre,
            comment: record.comment,
        }
    }

    /// The year, or the failure to read it: where the header holds a date
    /// that is not a number, this reports the field and the stored text
    /// instead of showing the field as absent.
    pub fn try_year(&self) -> (year: Result<Option<i32>, Error>)
        requires
            self.wf(),
        ensures
            match first_value(self.comments(), CommentKey::Date.text()) {
                None => year matches Ok(None),
                Some(stored) => match i32_value(stored) {
                    Some(number) => year matches Ok(Some(y)) && y == number,
                    None => year matches Err(Error::MalformedField(field, text)) && field
                        == Field::Year && text@ == stored,
                },
            },
    {
        match self.inner.get_tag_single(CommentKey::Date.name()) {
            Some(stored) => match parse_i32(stored.as_str()) {
                Some(number) => Ok(Some(number)),
                None => Err(Error::MalformedField(Field::Year, stored)),
            },
            None => Ok(None),
        }
    }

    /// The track number, or the failure to read it: where the header holds a
    /// track number that is not a number, this reports the field and the
    /// stored text instead of showing the field as absent.
    pub fn try_track_number(&self) -> (track: Result<Option<u16>, Error>)
        requires
            self.wf(),
        ensures
            match first_value(self.comments(), CommentKey::TrackNumber.text()) {
                None => track matches Ok(None),
                Some(stored) => match u16_value(stored) {
                    Some(number) => track matches Ok(Some(n)) && n == number,
                    None => track matches Err(Error::MalformedField(field, text)) && field
                        == Field::TrackNumber && text@ == stored,
                },
            },
    {
        match self.inner.get_tag_single(CommentKey::TrackNumber.name()) {
            Some(stored) => match parse_u16(stored.as_str()) {
                Some(number) => Ok(Some(number)),
                None => Err(Error::MalformedField(Field::TrackNumber, stored)),
            },
            None => Ok(None),
        }
    }
}

/// A header without comments shows no field.
pub proof fn lemma_empty_list_shows_nothing()
    ensures
        vorbis_fields(Seq::<Comment>::empty()) == TagFields::empty(),
{
    let list = Seq::<Comment>::empty();
    assert forall|tag: Seq<char>| first_value(list, tag) is None by {
        reveal(Seq::filter);
    }
}

impl Default for VorbisTag {
    fn default() -> (tag: Self)
        ensures
            tag.wf(),
            tag.fields() == TagFields::empty(),
    {
        VorbisTag::new()
    }
}

impl AudioTagEdit for VorbisTag {
    open spec fn wf(&self) -> bool {
        self.coherent()
    }

    open spec fn fields(&self) -> TagFields {
        vorbis_fields(self.comments())
    }

    open spec fn settings(&self) -> Config {
        self.config_of()
    }

    open spec fn format(&self) -> TagType {
        TagType::Vorbis
    }

    proof fn lemma_gaps_are_absent(&self) {
    }

    fn tag_type(&self) -> (tag_type: TagType) {
        TagType::Vorbis
    }

    fn config(&self) -> (config: &Config) {
        &self.config
    }

    fn set_config(&mut self, config: Config)
        ensures
            final(self).comments() == old(self).comments(),
    {
        self.config = config;
    }

    fn title(&self) -> (value: Option<&str>) {
        as_text(&self.title)
    }

    fn set_title(&mut self, title: &str)
        ensures
            final(self).comments() == with_single(
                old(self).comments(),
                CommentKey::Title.text(),
                title@,
            ),
    {
        proof {
            lemma_fields_after_set(self.comments(), CommentKey::Title, title@);
        }
        self.inner.set_tag_single(CommentKey::Title.name(), title);
        self.title = Some(String::from_str(title));
    }

    fn remove_title(&mut self)
        ensures
            final(self).comments() == without_tag(old(self).comments(), CommentKey::Title.text()),
    {
        proof {
            lemma_fields_after_remove(self.comments(), CommentKey::Title);
        }
        self.inner.clear_tag(CommentKey::Title.name());
        self.title = None;
    }

    fn artist(&self) -> (value: Option<&str>) {
        as_text(&self.artist)
    }

    fn set_artist(&mut self, artist: &str)
        ensures
            final(self).comments() == with_single(
                old(self).comments(),
                CommentKey::Artist.text(),
                artist@,
            ),
    {
        proof {
            lemma_fields_after_set(self.comments(), CommentKey::Artist, artist@);
        }
        self.inner.set_tag_single(CommentKey::Artist.name(), artist);
        self.artist = Some(String::from_str(artist));
    }

    fn remove_artist(&mut self)
        ensures
            final(self).comments() == without_tag(old(self).comments(), CommentKey::Artist.text()),
    {
        proof {
            lemma_fields_after_remove(self.comments(), CommentKey::Artist);
        }
        self.inner.clear_tag(CommentKey::Artist.name());
        self.artist = None;
    }

    fn year(&self) -> (value: Option<i32>) {
        match self.inner.get_tag_single(CommentKey::Date.name()) {
            Some(stored) => parse_i32(stored.as_str()),
            None => None,
        }
    }

    fn set_year(&mut self, year: i32)
        ensures
            final(self).comments() == with_single(
                old(self).comments(),
                CommentKey::Date.text(),
                decimal_text(year as int),
            ),
    {
        let text = format_i32(year);
        proof {
            lemma_fields_after_set(self.comments(), CommentKey::Date, text@);
        }
        self.inner.set_tag_single(CommentKey::Date.name(), text.as_str());
    }

    fn remove_year(&mut self)
        ensures
            final(self).comments() == without_tag(old(self).comments(), CommentKey::Date.text()),
    {
        proof {
            lemma_fields_after_remove(self.comments(), CommentKey::Date);
        }
        self.inner.clear_tag(CommentKey::Date.name());
    }

    fn album_title(&self) -> (value: Option<&str>) {
        as_text(&self.album_title)
    }

    fn set_album_title(&mut self, album_title: &str)
        ensures
            final(self).comments() == with_single(
                old(self).comments(),
                CommentKey::Album.text(),
                album_title@,
            ),
    {
        proof {
            lemma_fields_after_set(self.comments(), CommentKey::Album, album_title@);
        }
        self.inner.set_tag_single(CommentKey::Album.name(), album_title);
        self.album_title = Some(String::from_str(album_title));
    }

    fn remove_album_title(&mut self)
        ensures
            final(self).comments() == without_tag(old(self).comments(), CommentKey::Album.text()),
    {
        proof {
            lemma_fields_after_remove(self.comments(), CommentKey::Album);
        }
        self.inner.clear_tag(CommentKey::Album.name());
        self.album_title = None;
    }

    fn album_artist(&self) -> (value: Option<&str>) {
        None
    }

    fn set_album_artist(&mut self, _album_artist: &str)
        ensures
            *final(self) == *old(self),
    {
    }

    fn remove_album_artist(&mut self)
        ensures
            *final(self) == *old(self),
    {
    }

    fn album_cover(&self) -> (value: Option<Picture>) {
        None
    }

    fn set_album_cover(&mut self, _cover: Picture)
        ensures
            *final(self) == *old(self),
    {
    }

    fn remove_album_cover(&mut self)
        ensures
            *final(self) == *old(self),
    {
    }

    fn composer(&self) -> (value: Option<&str>) {
        None
    }

    fn set_composer(&mut self, _composer: String)
        ensures
            *final(self) == *old(self),
    {
    }

    fn remove_composer(&mut self)
        ensures
            *final(self) == *old(self),
    {
    }

    fn track_number(&self) -> (value: Option<u16>) {
        match self.inner.get_tag_single(CommentKey::TrackNumber.name()) {
            Some(stored) => parse_u16(stored.as_str()),
            None => None,
        }
    }

    fn set_track_number(&mut self, track_number: u16)
        ensures
            final(self).comments() == with_single(
                old(self).comments(),
                CommentKey::TrackNumber.text(),
                decimal_text(track_number as int),
            ),
    {
        let text = format_u16(track_number);
        proof {
            lemma_fields_after_set(self.comments(), CommentKey::TrackNumber, text@);
        }
        self.inner.set_tag_single(CommentKey::TrackNumber.name(), text.as_str());
    }

    fn remove_track_number(&mut self)
        ensures
            final(self).comments() == without_tag(old(self).comments(), CommentKey::TrackNumber.text()),
    {
        proof {
            lemma_fields_after_remove(self.comments(), CommentKey::TrackNumber);
        }
        self.inner.clear_tag(CommentKey::TrackNumber.name());
    }

    fn total_tracks(&self) -> (value: Option<u16>) {
        None
    }

    fn set_total_tracks(&mut self, _total_tracks: u16)
        ensures
            *final(self) == *old(self),
    {
    }

    fn remove_total_tracks(&mut self)
        ensures
            *final(self) == *old(self),
    {
    }

    fn disc_number(&self) -> (value: Option<u16>) {
        None
    }

    fn set_disc_number(&mut self, _disc_number: u16)
        ensures
            *final(self) == *old(self),
    {
    }

    fn remove_disc_number(&mut self)
        ensures
            *final(self) == *old(self),
    {
    }

    fn total_discs(&self) -> (value: Option<u16>) {
        None
    }

    fn set_total_discs(&mut self, _total_discs: u16)
        ensures
            *final(self) == *old(self),
    {
    }

    fn remove_total_discs(&mut self)
        ensures
            *final(self) == *old(self),
    {
    }

    fn genre(&self) -> (value: Option<&str>) {
        as_text(&self.genre)
    }

    fn set_genre(&mut self, genre: &str)
        ensures
            final(self).comments() == with_single(
                old(self).comments(),
                CommentKey::Genre.text(),
                genre@,
            ),
    {
        proof {
            lemma_fields_after_set(self.comments(), CommentKey::Genre, genre@);
        }
        self.inner.set_tag_single(CommentKey::Genre.name(), genre);
        self.genre = Some(String::from_str(genre));
    }

    fn remove_genre(&mut self)
        ensures
            final(self).comments() == without_tag(old(self).comments(), CommentKey::Genre.text()),
    {
        proof {
            lemma_fields_after_remove(self.comments(), CommentKey::Genre);
        }
        self.inner.clear_tag(CommentKey::Genre.name());
        self.genre = None;
    }

    fn comment(&self) -> (value: Option<&str>) {
        as_text(&self.comment)
    }

    fn set_comment(&mut self, comment: String)
        ensures
            final(self).comments() == with_single(
                old(self).comments(),
                CommentKey::Description.text(),
                comment@,
            ),
    {
        proof {
            lemma_fields_after_set(self.comments(), CommentKey::Description, comment@);
        }
        self.inner.set_tag_single(CommentKey::Description.name(), comment.as_str());
        self.comment = Some(comment);
    }

    fn remove_comment(&mut self)
        ensures
            final(self).comments() == without_tag(old(self).comments(), CommentKey::Description.text()),
    {
        proof {
            lemma_fields_after_remove(self.comments(), CommentKey::Description);
        }
        self.inner.clear_tag(CommentKey::Description.name());
        self.comment = None;
    }

    fn duration(&self) -> (value: Option<u64>) {
        None
    }

    fn artists(&self) -> (values: Option<Vec<String>>) {
        split_artists(self.artist(), &self.config)
    }

    fn album_artists(&self) -> (values: Option<Vec<String>>) {
        split_artists(self.album_artist(), &self.config)
    }
}

} // verus!
