//! A tag whose format is known only when the program runs, and the
//! conversion of such a tag into another format.

use crate::comments::Comment;
use crate::config::Config;
use crate::convert::{converted, record_of, replayed, to_record};
use crate::edit::AudioTagEdit;
use crate::fields::{Field, TagFields};
use crate::record::{AnyTag, Picture};
use crate::tag_type::TagType;
use crate::vorbis_tag::{VorbisInnerTag, VorbisTag};
use vstd::prelude::*;

verus! {

/// A tag of one of the formats that the library has an adapter for. It
/// offers the common interface by handing each call to its adapter.
pub enum Tag {
    Vorbis(VorbisTag),
}

impl Tag {
    /// A tag of the format `tag_type` without any field: its adapter holds
    /// an empty structure and has the default settings.
    pub fn new(tag_type: TagType) -> (tag: Tag)
        ensures
            tag.wf(),
            tag.format() == tag_type,
            tag.fields() == TagFields::empty(),
            tag.settings().sep_artist@ == seq![';'],
            tag.settings().parse_multiple_artists,
            match tag {
                Tag::Vorbis(adapter) => adapter.comments() == Seq::<Comment>::empty(),
            },
    {
        match tag_type {
            TagType::Vorbis => Tag::Vorbis(VorbisTag::new()),
        }
    }

    /// Makes a tag of the format `target` from a record: a fresh tag takes
    /// the record's settings and every field that the record holds and the
    /// format can represent.
    pub fn from_anytag(record: AnyTag, target: TagType) -> (tag: Tag)
        ensures
            tag.wf(),
            tag.format() == target,
            tag.settings() == record@.config,
            tag.fields() == replayed(
                TagFields::empty(),
                record@,
                |field: Field| target.supports(field),
            ),
    {
        match target {
            TagType::Vorbis => Tag::Vorbis(VorbisTag::from_anytag(record)),
        }
    }

    /// A snapshot of the tag as a neutral record.
    pub fn to_anytag(&self) -> (record: AnyTag)
        requires
            self.wf(),
        ensures
            record@ == record_of(self.fields(), self.settings()),
    {
        to_record(self)
    }

    /// Converts the tag into the format `target`. A tag that has this format
    /// already is returned as it is. Any other goes to a record, and the
    /// record into a fresh tag of the target format: the result shows every
    /// field that the target can represent as the source showed it, and
    /// nothing of the others.
    pub fn convert(self, target: TagType) -> (tag: Tag)
        requires
            self.wf(),
        ensures
            tag.wf(),
            tag.format() == target,
            self.format() == target ==> tag == self,
            self.format() != target ==> tag.settings() == self.settings() && tag.fields()
                == converted(
                self.fields(),
                self.settings(),
                |field: Field| target.supports(field),
            ),
    {
        if self.tag_type() == target {
            self
        } else {
            Tag::from_anytag(self.to_anytag(), target)
        }
    }

    /// The adapter, where the tag is a Vorbis tag.
    pub fn as_vorbis(&self) -> (adapter: Option<&VorbisTag>)
        ensures
            match self {
                Tag::Vorbis(tag) => adapter == Some(tag),
            },
    {
        match self {
            Tag::Vorbis(tag) => Some(tag),
        }
    }

    /// The tag as a Vorbis tag: the adapter itself where the tag has that
    /// format, else the result of converting it.
    pub fn into_vorbis(self) -> (adapter: VorbisTag)
        requires
            self.wf(),
        ensures
            adapter.wf(),
            self matches Tag::Vorbis(tag) ==> adapter == tag,
            self.format() != TagType::Vorbis ==> adapter.settings() == self.settings()
                && adapter.fields() == converted(
                self.fields(),
                self.settings(),
                |field: Field| TagType::Vorbis.supports(field),
            ),
    {
        match self.convert(TagType::Vorbis) {
            Tag::Vorbis(tag) => tag,
        }
    }

    /// The tag as a Vorbis comment header: the header of `into_vorbis`.
    pub fn into_vorbis_inner(self) -> (inner: VorbisInnerTag)
        requires
            self.wf(),
        ensures
            self matches Tag::Vorbis(tag) ==> inner.comments() == tag.comments(),
    {
        self.into_vorbis().into_inner()
    }
}

impl AudioTagEdit for Tag {
    open spec fn wf(&self) -> bool {
        match self {
            Tag::Vorbis(tag) => tag.wf(),
        }
    }

    open spec fn fields(&self) -> TagFields {
        match self {
            Tag::Vorbis(tag) => tag.fields(),
        }
    }

    open spec fn settings(&self) -> Config {
        match self {
            Tag::Vorbis(tag) => tag.settings(),
        }
    }

    open spec fn format(&self) -> TagType {
        match self {
            Tag::Vorbis(tag) => tag.format(),
        }
    }

    proof fn lemma_gaps_are_absent(&self) {
        match self {
            Tag::Vorbis(tag) => tag.lemma_gaps_are_absent(),
        }
    }

    fn tag_type(&self) -> (tag_type: TagType) {
        match self {
            Tag::Vorbis(tag) => tag.tag_type(),
        }
    }

    fn config(&self) -> (config: &Config) {
        match self {
            Tag::Vorbis(tag) => tag.config(),
        }
    }

    fn set_config(&mut self, config: Config) {
        match self {
            Tag::Vorbis(tag) => tag.set_config(config),
        }
    }

    fn title(&self) -> (value: Option<&str>) {
        match self {
            Tag::Vorbis(tag) => tag.title(),
        }
    }

    fn set_title(&mut self, title: &str) {
        match self {
            Tag::Vorbis(tag) => tag.set_title(title),
        }
    }

    fn remove_title(&mut self) {
        match self {
            Tag::Vorbis(tag) => tag.remove_title(),
        }
    }

    fn artist(&self) -> (value: Option<&str>) {
        match self {
            Tag::Vorbis(tag) => tag.artist(),
        }
    }

    fn set_artist(&mut self, artist: &str) {
        match self {
            Tag::Vorbis(tag) => tag.set_artist(artist),
        }
    }

    fn remove_artist(&mut self) {
        match self {
            Tag::Vorbis(tag) => tag.remove_artist(),
        }
    }

    fn year(&self) -> (value: Option<i32>) {
        match self {
            Tag::Vorbis(tag) => tag.year(),
        }
    }

    fn set_year(&mut self, year: i32) {
        match self {
            Tag::Vorbis(tag) => tag.set_year(year),
        }
    }

    fn remove_year(&mut self) {
        match self {
            Tag::Vorbis(tag) => tag.remove_year(),
        }
    }

    fn album_title(&self) -> (value: Option<&str>) {
        match self {
            Tag::Vorbis(tag) => tag.album_title(),
        }
    }

    fn set_album_title(&mut self, album_title: &str) {
        match self {
            Tag::Vorbis(tag) => tag.set_album_title(album_title),
        }
    }

    fn remove_album_title(&mut self) {
        match self {
            Tag::Vorbis(tag) => tag.remove_album_title(),
        }
    }

    fn album_artist(&self) -> (value: Option<&str>) {
        match self {
            Tag::Vorbis(tag) => tag.album_artist(),
        }
    }

    fn set_album_artist(&mut self, album_artist: &str)
        ensures
            *final(self) == *old(self),
    {
        match self {
            Tag::Vorbis(tag) => tag.set_album_artist(album_artist),
        }
    }

    fn remove_album_artist(&mut self)
        ensures
            *final(self) == *old(self),
    {
        match self {
            Tag::Vorbis(tag) => tag.remove_album_artist(),
        }
    }

    fn album_cover(&self) -> (value: Option<Picture>) {
        match self {
            Tag::Vorbis(tag) => tag.album_cover(),
        }
    }

    fn set_album_cover(&mut self, cover: Picture)
        ensures
            *final(self) == *old(self),
    {
        match self {
            Tag::Vorbis(tag) => tag.set_album_cover(cover),
        }
    }

    fn remove_album_cover(&mut self)
        ensures
            *final(self) == *old(self),
    {
        match self {
            Tag::Vorbis(tag) => tag.remove_album_cover(),
        }
    }

    fn composer(&self) -> (value: Option<&str>) {
        match self {
            Tag::Vorbis(tag) => tag.composer(),
        }
    }

    fn set_composer(&mut self, composer: String)
        ensures
            *final(self) == *old(self),
    {
        match self {
            Tag::Vorbis(tag) => tag.set_composer(composer),
        }
    }

    fn remove_composer(&mut self)
        ensures
            *final(self) == *old(self),
    {
        match self {
            Tag::Vorbis(tag) => tag.remove_composer(),
        }
    }

    fn track_number(&self) -> (value: Option<u16>) {
        match self {
            Tag::Vorbis(tag) => tag.track_number(),
        }
    }

    fn set_track_number(&mut self, track_number: u16) {
        match self {
            Tag::Vorbis(tag) => tag.set_track_number(track_number),
        }
    }

    fn remove_track_number(&mut self) {
        match self {
            Tag::Vorbis(tag) => tag.remove_track_number(),
        }
    }

    fn total_tracks(&self) -> (value: Option<u16>) {
        match self {
            Tag::Vorbis(tag) => tag.total_tracks(),
        }
    }

    fn set_total_tracks(&mut self, total_tracks: u16)
        ensures
            *final(self) == *old(self),
    {
        match self {
            Tag::Vorbis(tag) => tag.set_total_tracks(total_tracks),
        }
    }

    fn remove_total_tracks(&mut self)
        ensures
            *final(self) == *old(self),
    {
        match self {
            Tag::Vorbis(tag) => tag.remove_total_tracks(),
        }
    }

    fn disc_number(&self) -> (value: Option<u16>) {
        match self {
            Tag::Vorbis(tag) => tag.disc_number(),
        }
    }

    fn set_disc_number(&mut self, disc_number: u16)
        ensures
            *final(self) == *old(self),
    {
        match self {
            Tag::Vorbis(tag) => tag.set_disc_number(disc_number),
        }
    }

    fn remove_disc_number(&mut self)
        ensures
            *final(self) == *old(self),
    {
        match self {
            Tag::Vorbis(tag) => tag.remove_disc_number(),
        }
    }

    fn total_discs(&self) -> (value: Option<u16>) {
        match self {
            Tag::Vorbis(tag) => tag.total_discs(),
        }
    }

    fn set_total_discs(&mut self, total_discs: u16)
        ensures
            *final(self) == *old(self),
    {
        match self {
            Tag::Vorbis(tag) => tag.set_total_discs(total_discs),
        }
    }

    fn remove_total_discs(&mut self)
        ensures
            *final(self) == *old(self),
    {
        match self {
            Tag::Vorbis(tag) => tag.remove_total_discs(),
        }
    }

    fn genre(&self) -> (value: Option<&str>) {
        match self {
            Tag::Vorbis(tag) => tag.genre(),
        }
    }

    fn set_genre(&mut self, genre: &str) {
        match self {
            Tag::Vorbis(tag) => tag.set_genre(genre),
        }
    }

    fn remove_genre(&mut self) {
        match self {
            Tag::Vorbis(tag) => tag.remove_genre(),
        }
    }

    fn comment(&self) -> (value: Option<&str>) {
        match self {
            Tag::Vorbis(tag) => tag.comment(),
        }
    }

    fn set_comment(&mut self, comment: String) {
        match self {
            Tag::Vorbis(tag) => tag.set_comment(comment),
        }
    }

    fn remove_comment(&mut self) {
        match self {
            Tag::Vorbis(tag) => tag.remove_comment(),
        }
    }

    fn duration(&self) -> (value: Option<u64>) {
        match self {
            Tag::Vorbis(tag) => tag.duration(),
        }
    }

    fn artists(&self) -> (values: Option<Vec<String>>) {
        match self {
            Tag::Vorbis(tag) => tag.artists(),
        }
    }

    fn album_artists(&self) -> (values: Option<Vec<String>>) {
        match self {
            Tag::Vorbis(tag) => tag.album_artists(),
        }
    }
}

} // verus!
