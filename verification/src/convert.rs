//! The two directions between a tag of any format and the neutral record.
//!
//! From a tag to a record every field is copied; a field of several artists
//! is taken apart as the settings say. From a record to a tag every field
//! that the record holds and the format can represent is written; a field
//! that the record lacks is left as the tag has it, and a field that the
//! format cannot represent is dropped without complaint.

use crate::config::Config;
use crate::edit::AudioTagEdit;
use crate::fields::{artists_of, Field, TagFields};
use crate::record::{cover_view, AnyTag, AnyTagView, Picture};
use crate::text::lemma_join_split;
use vstd::prelude::*;

verus! {

/// The record of a tag that shows `fields` and has the settings `config`.
pub open spec fn record_of(fields: TagFields, config: Config) -> AnyTagView {
    AnyTagView {
        config,
        title: fields.title,
        artists: artists_of(fields.artist, config),
        year: fields.year,
        duration: fields.duration,
        album_title: fields.album_title,
        album_artists: artists_of(fields.album_artist, config),
        album_cover: fields.album_cover,
        track_number: fields.track_number,
        total_tracks: fields.total_tracks,
        disc_number: fields.disc_number,
        total_discs: fields.total_discs,
        genre: fields.genre,
        composer: fields.composer,
        comment: fields.comment,
    }
}

/// What a tag shows after `record` was written into it, where it showed
/// `base` before and its format represents the fields that `supports`
/// admits. Several artists become one text, joined by the separator of the
/// record's settings. The duration is never written.
pub open spec fn replayed(
    base: TagFields,
    record: AnyTagView,
    supports: spec_fn(Field) -> bool,
) -> TagFields {
    TagFields {
        title: if supports(Field::Title) && record.title is Some {
            record.title
        } else {
            base.title
        },
        artist: if supports(Field::Artist) && record.artists is Some {
            record.artists_as_string()
        } else {
            base.artist
        },
        year: if supports(Field::Year) && record.year is Some {
            record.year
        } else {
            base.year
        },
        album_title: if supports(Field::AlbumTitle) && record.album_title is Some {
            record.album_title
        } else {
            base.album_title
        },
        album_artist: if supports(Field::AlbumArtist) && record.album_artists is Some {
            record.album_artists_as_string()
        } else {
            base.album_artist
        },
        album_cover: if supports(Field::AlbumCover) && record.album_cover is Some {
            record.album_cover
        } else {
            base.album_cover
        },
        composer: if supports(Field::Composer) && record.composer is Some {
            record.composer
        } else {
            base.composer
        },
        track_number: if supports(Field::TrackNumber) && record.track_number is Some {
            record.track_number
        } else {
            base.track_number
        },
        total_tracks: if supports(Field::TotalTracks) && record.total_tracks is Some {
            record.total_tracks
        } else {
            base.total_tracks
        },
        disc_number: if supports(Field::DiscNumber) && record.disc_number is Some {
            record.disc_number
        } else {
            base.disc_number
        },
        total_discs: if supports(Field::TotalDiscs) && record.total_discs is Some {
            record.total_discs
        } else {
            base.total_discs
        },
        genre: if supports(Field::Genre) && record.genre is Some {
            record.genre
        } else {
            base.genre
        },
        comment: if supports(Field::Comment) && record.comment is Some {
            record.comment
        } else {
            base.comment
        },
        duration: base.duration,
    }
}

/// What a fresh tag shows after a tag that showed `source` was converted
/// into its format: the source goes to a record, and the record into the
/// fresh tag.
pub open spec fn converted(
    source: TagFields,
    config: Config,
    supports: spec_fn(Field) -> bool,
) -> TagFields {
    replayed(TagFields::empty(), record_of(source, config), supports)
}

/// An owned copy of a borrowed optional text.
fn owned(text: Option<&str>) -> (copy: Option<String>)
    ensures
        copy.deep_view() == text.deep_view(),
{
    match text {
        Some(s) => Some(String::from_str(s)),
        None => None,
    }
}

/// Takes a snapshot of `tag` as a neutral record.
pub fn to_record<T: AudioTagEdit>(tag: &T) -> (record: AnyTag)
    requires
        tag.wf(),
    ensures
        record@ == record_of(tag.fields(), tag.settings()),
{
    AnyTag {
        config: *tag.config(),
        title: owned(tag.title()),
        artists: tag.artists(),
        year: tag.year(),
        duration: tag.duration(),
        album_title: owned(tag.album_title()),
        album_artists: tag.album_artists(),
        album_cover: tag.album_cover(),
        track_number: tag.track_number(),
        total_tracks: tag.total_tracks(),
        disc_number: tag.disc_number(),
        total_discs: tag.total_discs(),
        genre: owned(tag.genre()),
        composer: owned(tag.composer()),
        comment: owned(tag.comment()),
    }
}

/// Writes the title into `tag` if there is one to write.
fn write_title<T: AudioTagEdit>(tag: &mut T, wanted: Option<String>)
    requires
        old(tag).wf(),
    ensures
        final(tag).wf(),
        final(tag).format() == old(tag).format(),
        final(tag).settings() == old(tag).settings(),
        wanted is None || !old(tag).format().supports(Field::Title) ==> *final(tag) == *old(tag),
        final(tag).fields() == (TagFields {
            title: if old(tag).format().supports(Field::Title) && wanted is Some {
                wanted.deep_view()
            } else {
                old(tag).fields().title
            },
            ..old(tag).fields()
        }),
{
    match wanted {
        Some(value) => tag.set_title(value.as_str()),
        None => {},
    }
}

/// Writes the artist into `tag` if there is one to write.
fn write_artist<T: AudioTagEdit>(tag: &mut T, wanted: Option<String>)
    requires
        old(tag).wf(),
    ensures
        final(tag).wf(),
        final(tag).format() == old(tag).format(),
        final(tag).settings() == old(tag).settings(),
        wanted is None || !old(tag).format().supports(Field::Artist) ==> *final(tag) == *old(tag),
        final(tag).fields() == (TagFields {
            artist: if old(tag).format().supports(Field::Artist) && wanted is Some {
                wanted.deep_view()
            } else {
                old(tag).fields().artist
            },
            ..old(tag).fields()
        }),
{
    match wanted {
        Some(value) => tag.set_artist(value.as_str()),
        None => {},
    }
}

/// Writes the year into `tag` if there is one to write.
fn write_year<T: AudioTagEdit>(tag: &mut T, wanted: Option<i32>)
    requires
        old(tag).wf(),
    ensures
        final(tag).wf(),
        final(tag).format() == old(tag).format(),
        final(tag).settings() == old(tag).settings(),
        wanted is None || !old(tag).format().supports(Field::Year) ==> *final(tag) == *old(tag),
        final(tag).fields() == (TagFields {
            year: if old(tag).format().supports(Field::Year) && wanted is Some {
                wanted
            } else {
                old(tag).fields().year
            },
            ..old(tag).fields()
        }),
{
    match wanted {
        Some(value) => tag.set_year(value),
        None => {},
    }
}

/// Writes the album title into `tag` if there is one to write.
fn write_album_title<T: AudioTagEdit>(tag: &mut T, wanted: Option<String>)
    requires
        old(tag).wf(),
    ensures
        final(tag).wf(),
        final(tag).format() == old(tag).format(),
        final(tag).settings() == old(tag).settings(),
        wanted is None || !old(tag).format().supports(Field::AlbumTitle) ==> *final(tag) == *old(tag),
        final(tag).fields() == (TagFields {
            album_title: if old(tag).format().supports(Field::AlbumTitle) && wanted is Some {
                wanted.deep_view()
            } else {
                old(tag).fields().album_title
            },
            ..old(tag).fields()
        }),
{
    match wanted {
        Some(value) => tag.set_album_title(value.as_str()),
        None => {},
    }
}

/// Writes the album artist into `tag` if there is one to write.
fn write_album_artist<T: AudioTagEdit>(tag: &mut T, wanted: Option<String>)
    requires
        old(tag).wf(),
    ensures
        final(tag).wf(),
        final(tag).format() == old(tag).format(),
        final(tag).settings() == old(tag).settings(),
        wanted is None || !old(tag).format().supports(Field::AlbumArtist) ==> *final(tag) == *old(tag),
        final(tag).fields() == (TagFields {
            album_artist: if old(tag).format().supports(Field::AlbumArtist) && wanted is Some {
                wanted.deep_view()
            } else {
                old(tag).fields().album_artist
            },
            ..old(tag).fields()
        }),
{
    match wanted {
        Some(value) => tag.set_album_artist(value.as_str()),
        None => {},
    }
}

/// Writes the album cover into `tag` if there is one to write.
fn write_album_cover<T: AudioTagEdit>(tag: &mut T, wanted: Option<Picture>)
    requires
        old(tag).wf(),
    ensures
        final(tag).wf(),
        final(tag).format() == old(tag).format(),
        final(tag).settings() == old(tag).settings(),
        wanted is None || !old(tag).format().supports(Field::AlbumCover) ==> *final(tag) == *old(tag),
        final(tag).fields() == (TagFields {
            album_cover: if old(tag).format().supports(Field::AlbumCover) && wanted is Some {
                cover_view(wanted)
            } else {
                old(tag).fields().album_cover
            },
            ..old(tag).fields()
        }),
{
    match wanted {
        Some(value) => tag.set_album_cover(value),
        None => {},
    }
}

/// Writes the track number into `tag` if there is one to write.
fn write_track_number<T: AudioTagEdit>(tag: &mut T, wanted: Option<u16>)
    requires
        old(tag).wf(),
    ensures
        final(tag).wf(),
        final(tag).format() == old(tag).format(),
        final(tag).settings() == old(tag).settings(),
        wanted is None || !old(tag).format().supports(Field::TrackNumber) ==> *final(tag) == *old(tag),
        final(tag).fields() == (TagFields {
            track_number: if old(tag).format().supports(Field::TrackNumber) && wanted is Some {
                wanted
            } else {
                old(tag).fields().track_number
            },
            ..old(tag).fields()
        }),
{
    match wanted {
        Some(value) => tag.set_track_number(value),
        None => {},
    }
}

/// Writes the number of tracks into `tag` if there is one to write.
fn write_total_tracks<T: AudioTagEdit>(tag: &mut T, wanted: Option<u16>)
    requires
        old(tag).wf(),
    ensures
        final(tag).wf(),
        final(tag).format() == old(tag).format(),
        final(tag).settings() == old(tag).settings(),
        wanted is None || !old(tag).format().supports(Field::TotalTracks) ==> *final(tag) == *old(tag),
        final(tag).fields() == (TagFields {
            total_tracks: if old(tag).format().supports(Field::TotalTracks) && wanted is Some {
                wanted
            } else {
                old(tag).fields().total_tracks
            },
            ..old(tag).fields()
        }),
{
    match wanted {
        Some(value) => tag.set_total_tracks(value),
        None => {},
    }
}

/// Writes the disc number into `tag` if there is one to write.
fn write_disc_number<T: AudioTagEdit>(tag: &mut T, wanted: Option<u16>)
    requires
        old(tag).wf(),
    ensures
        final(tag).wf(),
        final(tag).format() == old(tag).format(),
        final(tag).settings() == old(tag).settings(),
        wanted is None || !old(tag).format().supports(Field::DiscNumber) ==> *final(tag) == *old(tag),
        final(tag).fields() == (TagFields {
            disc_number: if old(tag).format().supports(Field::DiscNumber) && wanted is Some {
                wanted
            } else {
                old(tag).fields().disc_number
            },
            ..old(tag).fields()
        }),
{
    match wanted {
        Some(value) => tag.set_disc_number(value),
        None => {},
    }
}

/// Writes the number of discs into `tag` if there is one to write.
fn write_total_discs<T: AudioTagEdit>(tag: &mut T, wanted: Option<u16>)
    requires
        old(tag).wf(),
    ensures
        final(tag).wf(),
        final(tag).format() == old(tag).format(),
        final(tag).settings() == old(tag).settings(),
        wanted is None || !old(tag).format().supports(Field::TotalDiscs) ==> *final(tag) == *old(tag),
        final(tag).fields() == (TagFields {
            total_discs: if old(tag).format().supports(Field::TotalDiscs) && wanted is Some {
                wanted
            } else {
                old(tag).fields().total_discs
            },
            ..old(tag).fields()
        }),
{
    match wanted {
        Some(value) => tag.set_total_discs(value),
        None => {},
    }
}

/// Writes the genre into `tag` if there is one to write.
fn write_genre<T: AudioTagEdit>(tag: &mut T, wanted: Option<String>)
    requires
        old(tag).wf(),
    ensures
        final(tag).wf(),
        final(tag).format() == old(tag).format(),
        final(tag).settings() == old(tag).settings(),
        wanted is None || !old(tag).format().supports(Field::Genre) ==> *final(tag) == *old(tag),
        final(tag).fields() == (TagFields {
            genre: if old(tag).format().supports(Field::Genre) && wanted is Some {
                wanted.deep_view()
            } else {
                old(tag).fields().genre
            },
            ..old(tag).fields()
        }),
{
    match wanted {
        Some(value) => tag.set_genre(value.as_str()),
        None => {},
    }
}

/// Writes the composer into `tag` if there is one to write.
fn write_composer<T: AudioTagEdit>(tag: &mut T, wanted: Option<String>)
    requires
        old(tag).wf(),
    ensures
        final(tag).wf(),
        final(tag).format() == old(tag).format(),
        final(tag).settings() == old(tag).settings(),
        wanted is None || !old(tag).format().supports(Field::Composer) ==> *final(tag) == *old(tag),
        final(tag).fields() == (TagFields {
            composer: if old(tag).format().supports(Field::Composer) && wanted is Some {
                wanted.deep_view()
            } else {
                old(tag).fields().composer
            },
            ..old(tag).fields()
        }),
{
    match wanted {
        Some(value) => tag.set_composer(value),
        None => {},
    }
}

/// Writes the comment into `tag` if there is one to write.
fn write_comment<T: AudioTagEdit>(tag: &mut T, wanted: Option<String>)
    requires
        old(tag).wf(),
    ensures
        final(tag).wf(),
        final(tag).format() == old(tag).format(),
        final(tag).settings() == old(tag).settings(),
        wanted is None || !old(tag).format().supports(Field::Comment) ==> *final(tag) == *old(tag),
        final(tag).fields() == (TagFields {
            comment: if old(tag).format().supports(Field::Comment) && wanted is Some {
                wanted.deep_view()
            } else {
                old(tag).fields().comment
            },
            ..old(tag).fields()
        }),
{
    match wanted {
        Some(value) => tag.set_comment(value),
        None => {},
    }
}

/// Writes `record` into `tag`: the tag takes the record's settings and every
/// field that the record holds and the format represents. What the record
/// lacks stays as it is in the tag.
pub fn replay<T: AudioTagEdit>(tag: &mut T, record: AnyTag)
    requires
        old(tag).wf(),
    ensures
        final(tag).wf(),
        final(tag).format() == old(tag).format(),
        final(tag).settings() == record@.config,
        final(tag).fields() == replayed(
            old(tag).fields(),
            record@,
            |field: Field| old(tag).format().supports(field),
        ),
{
    let artists = record.artists_as_string();
    let album_artists = record.album_artists_as_string();
    tag.set_config(record.config);
    write_title(tag, record.title);
    write_artist(tag, artists);
    write_year(tag, record.year);
    write_album_title(tag, record.album_title);
    write_album_artist(tag, album_artists);
    write_album_cover(tag, record.album_cover);
    write_track_number(tag, record.track_number);
    write_total_tracks(tag, record.total_tracks);
    write_disc_number(tag, record.disc_number);
    write_total_discs(tag, record.total_discs);
    write_genre(tag, record.genre);
    write_composer(tag, record.composer);
    write_comment(tag, record.comment);
}

/// Taking the artists apart and joining them again, under the same settings,
/// gives the artist text back.
pub proof fn lemma_artists_round_trip(artist: Option<Seq<char>>, config: Config)
    ensures
        (match artists_of(artist, config) {
            Some(values) => Some(crate::text::join_text(values, config.sep_artist@)),
            None => None,
        }) == artist,
{
    match artist {
        Some(text) => {
            lemma_join_split(text, config.sep_artist@);
        },
        None => {},
    }
}

/// A tag converted into its own format shows every field as before: each
/// text character for character, each number with its value. Only the
/// duration, which is never written, is lost.
pub proof fn lemma_round_trip(fields: TagFields, config: Config, supports: spec_fn(Field) -> bool)
    requires
        fields.within(supports),
    ensures
        converted(fields, config, supports) == (TagFields { duration: None, ..fields }),
{
    lemma_artists_round_trip(fields.artist, config);
    lemma_artists_round_trip(fields.album_artist, config);
    assert(fields.has(Field::Title) ==> supports(Field::Title));
    assert(fields.has(Field::Artist) ==> supports(Field::Artist));
    assert(fields.has(Field::Year) ==> supports(Field::Year));
    assert(fields.has(Field::AlbumTitle) ==> supports(Field::AlbumTitle));
    assert(fields.has(Field::AlbumArtist) ==> supports(Field::AlbumArtist));
    assert(fields.has(Field::AlbumCover) ==> supports(Field::AlbumCover));
    assert(fields.has(Field::Composer) ==> supports(Field::Composer));
    assert(fields.has(Field::TrackNumber) ==> supports(Field::TrackNumber));
    assert(fields.has(Field::TotalTracks) ==> supports(Field::TotalTracks));
    assert(fields.has(Field::DiscNumber) ==> supports(Field::DiscNumber));
    assert(fields.has(Field::TotalDiscs) ==> supports(Field::TotalDiscs));
    assert(fields.has(Field::Genre) ==> supports(Field::Genre));
    assert(fields.has(Field::Comment) ==> supports(Field::Comment));
}

/// The round trip for a tag of any format: what its record, written into a
/// fresh tag of the same format, shows is what the tag shows, but for the
/// duration.
pub proof fn lemma_round_trip_of_tag<T: AudioTagEdit>(tag: &T)
    requires
        tag.wf(),
    ensures
        converted(tag.fields(), tag.settings(), |field: Field| tag.format().supports(field)) == (
        TagFields { duration: None, ..tag.fields() }),
{
    tag.lemma_gaps_are_absent();
    lemma_round_trip(tag.fields(), tag.settings(), |field: Field| tag.format().supports(field));
}

/// A conversion loses exactly what the target cannot represent: the result
/// shows every field that the target supports as the source showed it, and
/// no other field.
pub proof fn lemma_conversion_loss(
    source: TagFields,
    config: Config,
    supports: spec_fn(Field) -> bool,
)
    ensures
        converted(source, config, supports).within(supports),
        supports(Field::Title) ==> converted(source, config, supports).title == source.title,
        supports(Field::Artist) ==> converted(source, config, supports).artist == source.artist,
        supports(Field::Year) ==> converted(source, config, supports).year == source.year,
        supports(Field::AlbumTitle) ==> converted(source, config, supports).album_title
            == source.album_title,
        supports(Field::AlbumArtist) ==> converted(source, config, supports).album_artist
            == source.album_artist,
        supports(Field::AlbumCover) ==> converted(source, config, supports).album_cover
            == source.album_cover,
        supports(Field::Composer) ==> converted(source, config, supports).composer
            == source.composer,
        supports(Field::TrackNumber) ==> converted(source, config, supports).track_number
            == source.track_number,
        supports(Field::TotalTracks) ==> converted(source, config, supports).total_tracks
            == source.total_tracks,
        supports(Field::DiscNumber) ==> converted(source, config, supports).disc_number
            == source.disc_number,
        supports(Field::TotalDiscs) ==> converted(source, config, supports).total_discs
            == source.total_discs,
        supports(Field::Genre) ==> converted(source, config, supports).genre == source.genre,
        supports(Field::Comment) ==> converted(source, config, supports).comment
            == source.comment,
{
    lemma_artists_round_trip(source.artist, config);
    lemma_artists_round_trip(source.album_artist, config);
    let result = converted(source, config, supports);
    assert forall|field: Field| #[trigger] result.has(field) implies supports(field) by {
    }
}

/// Converting the same source into the same format twice gives the same
/// fields: a conversion depends on nothing but what the source shows, its
/// settings and what the target can represent.
pub proof fn lemma_conversion_is_deterministic(
    source: TagFields,
    config: Config,
    supports: spec_fn(Field) -> bool,
    first: TagFields,
    second: TagFields,
)
    requires
        first == converted(source, config, supports),
        second == converted(source, config, supports),
    ensures
        first == second,
{
}

} // verus!
