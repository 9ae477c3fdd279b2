use audiotags::{AudioTagEdit, Config, Error, Field, MimeType, Picture, TagType, VorbisInnerTag, VorbisTag};
use oggvorbismeta::CommentHeader;

fn header(comments: &[(&str, &str)]) -> CommentHeader {
    CommentHeader {
        vendor: "Ogg".to_string(),
        comment_list: comments
            .iter()
            .map(|(name, value)| (name.to_string(), value.to_string()))
            .collect(),
    }
}

fn list(comments: &[(&str, &str)]) -> Vec<(String, String)> {
    comments.iter().map(|(name, value)| (name.to_string(), value.to_string())).collect()
}

fn tag_of(comments: &[(&str, &str)]) -> VorbisTag {
    VorbisTag::from_inner(VorbisInnerTag::from_header(header(comments)))
}

#[test]
fn inner_new_is_empty() {
    let inner = VorbisInnerTag::new();
    assert!(inner.header().comment_list.is_empty());
    assert_eq!(inner.get_tag_single("TITLE"), None);
    assert!(VorbisInnerTag::default().into_header().comment_list.is_empty());
}

#[test]
fn inner_keeps_the_header_it_was_given() {
    let inner = VorbisInnerTag::from_header(header(&[("Title", "Noise"), ("x", "y")]));
    assert_eq!(inner.header().comment_list, list(&[("Title", "Noise"), ("x", "y")]));
    assert_eq!(inner.header().vendor, "Ogg");
    let back = inner.into_header();
    assert_eq!(back.comment_list, list(&[("Title", "Noise"), ("x", "y")]));
    assert_eq!(back.vendor, "Ogg");
}

#[test]
fn inner_get_takes_the_first_and_ignores_case() {
    let inner = VorbisInnerTag::from_header(header(&[
        ("album", "Greatest Hits"),
        ("Artist", "Some Guy"),
        ("ARTIST", "Another Dude"),
    ]));
    assert_eq!(inner.get_tag_single("artist"), Some("Some Guy".to_string()));
    assert_eq!(inner.get_tag_single("ARTIST"), Some("Some Guy".to_string()));
    assert_eq!(inner.get_tag_single("ALBUM"), Some("Greatest Hits".to_string()));
    assert_eq!(inner.get_tag_single("title"), None);
}

#[test]
fn inner_add_appends_a_lower_case_name() {
    let mut inner = VorbisInnerTag::from_header(header(&[("TITLE", "Old")]));
    inner.add_tag_single("TITLE", "New");
    inner.add_tag_single("Genre", "Noise");
    assert_eq!(
        inner.header().comment_list,
        list(&[("TITLE", "Old"), ("title", "New"), ("genre", "Noise")])
    );
    assert_eq!(inner.get_tag_single("TITLE"), Some("Old".to_string()));
}

#[test]
fn inner_clear_removes_every_comment_of_the_name() {
    let mut inner = VorbisInnerTag::from_header(header(&[
        ("artist", "Some Guy"),
        ("album", "Greatest Hits"),
        ("ARTIST", "Another Dude"),
        ("date", "1997"),
    ]));
    inner.clear_tag("Artist");
    assert_eq!(inner.header().comment_list, list(&[("album", "Greatest Hits"), ("date", "1997")]));
    assert_eq!(inner.get_tag_single("artist"), None);
}

#[test]
fn inner_set_replaces_what_was_there() {
    let mut inner = VorbisInnerTag::from_header(header(&[
        ("TITLE", "Old"),
        ("album", "Greatest Hits"),
        ("title", "Older"),
    ]));
    inner.set_tag_single("TITLE", "New");
    assert_eq!(inner.header().comment_list, list(&[("album", "Greatest Hits"), ("title", "New")]));
    assert_eq!(inner.get_tag_single("TITLE"), Some("New".to_string()));
}

#[test]
fn new_tag_shows_nothing() {
    let tag = VorbisTag::new();
    assert_eq!(tag.title(), None);
    assert_eq!(tag.artist(), None);
    assert_eq!(tag.year(), None);
    assert_eq!(tag.album_title(), None);
    assert_eq!(tag.track_number(), None);
    assert_eq!(tag.genre(), None);
    assert_eq!(tag.comment(), None);
    assert_eq!(tag.duration(), None);
    assert_eq!(tag.artists(), None);
    assert_eq!(tag.tag_type(), TagType::Vorbis);
    assert_eq!(tag.config().sep_artist, ";");
    assert!(tag.config().parse_multiple_artists);
    assert!(tag.inner().header().comment_list.is_empty());
    assert_eq!(VorbisTag::default().title(), None);
}

#[test]
fn tag_reads_the_fields_of_a_header() {
    let tag = tag_of(&[
        ("title", "A very good song"),
        ("artist", "Some Guy"),
        ("artist", "Another Dude"),
        ("album", "Greatest Hits"),
        ("tracknumber", "3"),
        ("date", "1997"),
        ("genre", "Noise"),
        ("description", "Recorded live"),
        ("composer", "Nobody"),
    ]);
    assert_eq!(tag.title(), Some("A very good song"));
    assert_eq!(tag.artist(), Some("Some Guy"));
    assert_eq!(tag.album_title(), Some("Greatest Hits"));
    assert_eq!(tag.track_number(), Some(3));
    assert_eq!(tag.year(), Some(1997));
    assert_eq!(tag.genre(), Some("Noise"));
    assert_eq!(tag.comment(), Some("Recorded live"));
    assert_eq!(tag.composer(), None);
}

#[test]
fn write_then_read_gives_the_value_back() {
    let mut tag = tag_of(&[("TITLE", "Old"), ("title", "Older"), ("DATE", "1901")]);
    tag.set_title("Song A");
    assert_eq!(tag.title(), Some("Song A"));
    tag.set_title("Song B");
    assert_eq!(tag.title(), Some("Song B"));
    tag.set_artist("Band B");
    assert_eq!(tag.artist(), Some("Band B"));
    tag.set_album_title("Album C");
    assert_eq!(tag.album_title(), Some("Album C"));
    tag.set_genre("Jazz");
    assert_eq!(tag.genre(), Some("Jazz"));
    tag.set_comment("fine".to_string());
    assert_eq!(tag.comment(), Some("fine"));
    tag.set_year(2001);
    assert_eq!(tag.year(), Some(2001));
    tag.set_year(-44);
    assert_eq!(tag.year(), Some(-44));
    for track in [0u16, 1, 7, 255, 65535] {
        tag.set_track_number(track);
        assert_eq!(tag.track_number(), Some(track));
    }
    assert_eq!(tag.title(), Some("Song B"));
    assert_eq!(tag.artist(), Some("Band B"));
    assert_eq!(
        tag.inner().header().comment_list,
        list(&[
            ("title", "Song B"),
            ("artist", "Band B"),
            ("album", "Album C"),
            ("genre", "Jazz"),
            ("description", "fine"),
            ("date", "-44"),
            ("tracknumber", "65535"),
        ])
    );
}

#[test]
fn write_then_read_survives_a_reload() {
    let mut tag = VorbisTag::new();
    tag.set_title("Song A");
    tag.set_year(1997);
    tag.set_track_number(3);
    let reloaded = VorbisTag::from_inner(tag.into_inner());
    assert_eq!(reloaded.title(), Some("Song A"));
    assert_eq!(reloaded.year(), Some(1997));
    assert_eq!(reloaded.track_number(), Some(3));
}

#[test]
fn remove_makes_the_field_absent_and_keeps_the_rest() {
    let mut tag = tag_of(&[
        ("title", "T"),
        ("artist", "A"),
        ("album", "L"),
        ("genre", "G"),
        ("description", "D"),
        ("date", "1997"),
        ("tracknumber", "3"),
        ("TITLE", "second title"),
    ]);
    tag.remove_title();
    assert_eq!(tag.title(), None);
    assert_eq!(tag.artist(), Some("A"));
    tag.remove_artist();
    assert_eq!(tag.artist(), None);
    tag.remove_album_title();
    assert_eq!(tag.album_title(), None);
    tag.remove_genre();
    assert_eq!(tag.genre(), None);
    assert_eq!(tag.comment(), Some("D"));
    tag.remove_comment();
    assert_eq!(tag.comment(), None);
    assert_eq!(tag.year(), Some(1997));
    tag.remove_year();
    assert_eq!(tag.year(), None);
    assert_eq!(tag.track_number(), Some(3));
    tag.remove_track_number();
    assert_eq!(tag.track_number(), None);
    assert!(tag.inner().header().comment_list.is_empty());
}

#[test]
fn unsupported_fields_stay_absent_and_change_nothing() {
    let mut tag = tag_of(&[("title", "T"), ("ALBUMARTIST", "kept as it is")]);
    let before = tag.inner().header().comment_list.clone();
    tag.set_album_artist("X");
    assert_eq!(tag.album_artist(), None);
    assert_eq!(tag.album_artists(), None);
    tag.set_composer("Y".to_string());
    assert_eq!(tag.composer(), None);
    tag.set_album_cover(Picture::new(vec![1, 2, 3], MimeType::Png));
    assert!(tag.album_cover().is_none());
    tag.set_total_tracks(12);
    assert_eq!(tag.total_tracks(), None);
    tag.set_disc_number(1);
    assert_eq!(tag.disc_number(), None);
    tag.set_total_discs(2);
    assert_eq!(tag.total_discs(), None);
    tag.remove_album_artist();
    tag.remove_composer();
    tag.remove_album_cover();
    tag.remove_total_tracks();
    tag.remove_disc_number();
    tag.remove_total_discs();
    assert_eq!(tag.duration(), None);
    assert_eq!(tag.title(), Some("T"));
    assert_eq!(tag.inner().header().comment_list, before);
}

#[test]
fn capability_table_of_the_vorbis_format() {
    let supported = [
        Field::Title,
        Field::Artist,
        Field::Year,
        Field::AlbumTitle,
        Field::TrackNumber,
        Field::Genre,
        Field::Comment,
    ];
    let unsupported = [
        Field::AlbumArtist,
        Field::AlbumCover,
        Field::Composer,
        Field::TotalTracks,
        Field::DiscNumber,
        Field::TotalDiscs,
        Field::Duration,
    ];
    for field in supported {
        assert!(TagType::Vorbis.has_field(field), "{:?}", field);
    }
    for field in unsupported {
        assert!(!TagType::Vorbis.has_field(field), "{:?}", field);
    }
}

#[test]
fn malformed_number_reads_as_absent() {
    let tag = tag_of(&[("title", "T"), ("date", "in the nineties"), ("tracknumber", "3/12")]);
    assert_eq!(tag.year(), None);
    assert_eq!(tag.track_number(), None);
    assert_eq!(tag.title(), Some("T"));
}

#[test]
fn malformed_number_fails_loudly_on_request() {
    let tag = tag_of(&[("date", "in the nineties"), ("tracknumber", "3/12")]);
    match tag.try_year() {
        Err(Error::MalformedField(field, text)) => {
            assert_eq!(field, Field::Year);
            assert_eq!(text, "in the nineties");
        }
        other => panic!("unexpected {:?}", other),
    }
    match tag.try_track_number() {
        Err(Error::MalformedField(field, text)) => {
            assert_eq!(field, Field::TrackNumber);
            assert_eq!(text, "3/12");
        }
        other => panic!("unexpected {:?}", other),
    }
}

#[test]
fn strict_reader_agrees_on_well_formed_numbers() {
    let tag = tag_of(&[("date", "1997"), ("tracknumber", "+7")]);
    assert!(matches!(tag.try_year(), Ok(Some(1997))));
    assert!(matches!(tag.try_track_number(), Ok(Some(7))));
    let empty = VorbisTag::new();
    assert!(matches!(empty.try_year(), Ok(None)));
    assert!(matches!(empty.try_track_number(), Ok(None)));
}

#[test]
fn artists_are_cut_as_the_settings_say() {
    let mut tag = tag_of(&[("artist", "Some Guy;Another Dude")]);
    assert_eq!(tag.artists(), Some(vec!["Some Guy".to_string(), "Another Dude".to_string()]));
    tag.set_config(Config::default().parse_multiple_artists(false));
    assert_eq!(tag.artists(), Some(vec!["Some Guy;Another Dude".to_string()]));
    tag.set_config(Config::default().sep_artist(" Dude"));
    assert_eq!(tag.artists(), Some(vec!["Some Guy;Another".to_string(), "".to_string()]));
    assert_eq!(tag.artist(), Some("Some Guy;Another Dude"));
    assert_eq!(tag.config().sep_artist, " Dude");
}
