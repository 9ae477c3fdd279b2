use audiotags::convert::{replay, to_record};
use audiotags::{AnyTag, AudioTagEdit, Config, MimeType, Picture, Tag, TagType, VorbisInnerTag, VorbisTag};
use oggvorbismeta::CommentHeader;

fn list(comments: &[(&str, &str)]) -> Vec<(String, String)> {
    comments.iter().map(|(name, value)| (name.to_string(), value.to_string())).collect()
}

fn tag_of(comments: &[(&str, &str)]) -> VorbisTag {
    let header = CommentHeader { vendor: String::new(), comment_list: list(comments) };
    VorbisTag::from_inner(VorbisInnerTag::from_header(header))
}

fn full_record() -> AnyTag {
    let mut record = AnyTag::new(Config::default());
    record.title = Some("Song A".to_string());
    record.artists = Some(vec!["Some Guy".to_string(), "Another Dude".to_string()]);
    record.year = Some(1997);
    record.duration = Some(215_000);
    record.album_title = Some("Greatest Hits".to_string());
    record.album_artists = Some(vec!["X".to_string()]);
    record.album_cover = Some(Picture::new(vec![0x89, 0x50, 0x4e, 0x47], MimeType::Png));
    record.track_number = Some(3);
    record.total_tracks = Some(12);
    record.disc_number = Some(1);
    record.total_discs = Some(2);
    record.genre = Some("Noise".to_string());
    record.composer = Some("Y".to_string());
    record.comment = Some("Recorded live".to_string());
    record
}

fn shown(tag: &impl AudioTagEdit) -> Vec<Option<String>> {
    vec![
        tag.title().map(str::to_string),
        tag.artist().map(str::to_string),
        tag.year().map(|year| year.to_string()),
        tag.album_title().map(str::to_string),
        tag.album_artist().map(str::to_string),
        tag.album_cover().map(|cover| format!("{:?}", cover)),
        tag.composer().map(str::to_string),
        tag.track_number().map(|number| number.to_string()),
        tag.total_tracks().map(|number| number.to_string()),
        tag.disc_number().map(|number| number.to_string()),
        tag.total_discs().map(|number| number.to_string()),
        tag.genre().map(str::to_string),
        tag.comment().map(str::to_string),
        tag.duration().map(|millis| millis.to_string()),
    ]
}

#[test]
fn record_of_a_tag_copies_every_field() {
    let tag = tag_of(&[
        ("title", "Song A"),
        ("artist", "Some Guy;Another Dude"),
        ("date", "1997"),
        ("album", "Greatest Hits"),
        ("tracknumber", "3"),
        ("genre", "Noise"),
        ("description", "Recorded live"),
    ]);
    let record = tag.to_anytag();
    assert_eq!(record.title.as_deref(), Some("Song A"));
    assert_eq!(record.artists, Some(vec!["Some Guy".to_string(), "Another Dude".to_string()]));
    assert_eq!(record.year, Some(1997));
    assert_eq!(record.duration, None);
    assert_eq!(record.album_title.as_deref(), Some("Greatest Hits"));
    assert_eq!(record.album_artists, None);
    assert!(record.album_cover.is_none());
    assert_eq!(record.track_number, Some(3));
    assert_eq!(record.total_tracks, None);
    assert_eq!(record.disc_number, None);
    assert_eq!(record.total_discs, None);
    assert_eq!(record.genre.as_deref(), Some("Noise"));
    assert_eq!(record.composer, None);
    assert_eq!(record.comment.as_deref(), Some("Recorded live"));
    assert_eq!(record.config.sep_artist, ";");
    assert!(record.config.parse_multiple_artists);
}

#[test]
fn record_of_an_empty_tag_is_empty() {
    let record = to_record(&VorbisTag::new());
    assert_eq!(record.title, None);
    assert_eq!(record.artists, None);
    assert_eq!(record.year, None);
    assert_eq!(record.track_number, None);
    assert_eq!(record.comment, None);
}

#[test]
fn tag_from_a_record_writes_the_supported_fields_in_order() {
    let tag = VorbisTag::from_anytag(full_record());
    assert_eq!(
        tag.inner().header().comment_list,
        list(&[
            ("title", "Song A"),
            ("artist", "Some Guy;Another Dude"),
            ("date", "1997"),
            ("album", "Greatest Hits"),
            ("tracknumber", "3"),
            ("genre", "Noise"),
            ("description", "Recorded live"),
        ])
    );
    assert_eq!(tag.title(), Some("Song A"));
    assert_eq!(tag.artist(), Some("Some Guy;Another Dude"));
    assert_eq!(tag.year(), Some(1997));
    assert_eq!(tag.album_title(), Some("Greatest Hits"));
    assert_eq!(tag.track_number(), Some(3));
    assert_eq!(tag.genre(), Some("Noise"));
    assert_eq!(tag.comment(), Some("Recorded live"));
}

#[test]
fn tag_from_a_record_takes_its_settings() {
    let mut record = full_record();
    record.config = Config::default().sep_artist(" / ");
    let tag = VorbisTag::from_anytag(record);
    assert_eq!(tag.config().sep_artist, " / ");
    assert_eq!(tag.artist(), Some("Some Guy / Another Dude"));
    assert_eq!(tag.artists(), Some(vec!["Some Guy".to_string(), "Another Dude".to_string()]));
}

#[test]
fn tag_from_an_empty_record_is_empty() {
    let tag = VorbisTag::from_anytag(AnyTag::new(Config::default()));
    assert!(tag.inner().header().comment_list.is_empty());
    assert_eq!(shown(&tag), vec![None; 14]);
}

#[test]
fn conversion_with_loss_drops_what_the_target_lacks() {
    let tag = Tag::from_anytag(full_record(), TagType::Vorbis);
    assert_eq!(tag.album_artist(), None);
    assert_eq!(tag.composer(), None);
    assert!(tag.album_cover().is_none());
    assert_eq!(tag.total_tracks(), None);
    assert_eq!(tag.disc_number(), None);
    assert_eq!(tag.total_discs(), None);
    assert_eq!(tag.duration(), None);
    assert_eq!(tag.title(), Some("Song A"));
    assert_eq!(tag.artist(), Some("Some Guy;Another Dude"));
    assert_eq!(tag.album_title(), Some("Greatest Hits"));
}

#[test]
fn round_trip_within_the_format_reproduces_every_field() {
    let sources = [
        tag_of(&[]),
        tag_of(&[("title", "Song A")]),
        tag_of(&[
            ("TITLE", "Song A"),
            ("Artist", "Some Guy;Another Dude;"),
            ("date", "-0044"),
            ("album", ""),
            ("tracknumber", "+03"),
            ("genre", "Noise; more noise"),
            ("description", "=;=\n"),
        ]),
        tag_of(&[("date", "soon"), ("tracknumber", "3/12"), ("artist", ";;")]),
    ];
    for source in sources {
        let again = VorbisTag::from_anytag(source.to_anytag());
        assert_eq!(shown(&again), shown(&source));
        assert_eq!(again.artists(), source.artists());
        let third = VorbisTag::from_anytag(again.to_anytag());
        assert_eq!(third.inner().header().comment_list, again.inner().header().comment_list);
    }
}

#[test]
fn round_trip_holds_under_other_settings() {
    for config in [
        Config::default().sep_artist(", "),
        Config::default().sep_artist(""),
        Config::default().parse_multiple_artists(false),
    ] {
        let mut source = tag_of(&[("artist", "A, B,C;D"), ("title", "T")]);
        source.set_config(config);
        let again = VorbisTag::from_anytag(source.to_anytag());
        assert_eq!(shown(&again), shown(&source));
        assert_eq!(again.config().sep_artist, config.sep_artist);
        assert_eq!(again.config().parse_multiple_artists, config.parse_multiple_artists);
    }
}

#[test]
fn converting_twice_gives_the_same_result() {
    let source = tag_of(&[
        ("title", "Song A"),
        ("artist", "Some Guy;Another Dude"),
        ("date", "1997"),
        ("tracknumber", "3"),
        ("unknown", "left behind"),
    ]);
    let first = Tag::from_anytag(source.to_anytag(), TagType::Vorbis);
    let second = Tag::from_anytag(source.to_anytag(), TagType::Vorbis);
    assert_eq!(shown(&first), shown(&second));
    let first = first.into_vorbis_inner().into_header();
    let second = second.into_vorbis_inner().into_header();
    assert_eq!(first.comment_list, second.comment_list);
    assert_eq!(first.vendor, second.vendor);
}

#[test]
fn replay_leaves_what_the_record_lacks() {
    let mut tag = tag_of(&[("title", "Old title"), ("genre", "Kept"), ("custom", "kept too")]);
    let mut record = AnyTag::new(Config::default().sep_artist("+"));
    record.title = Some("New title".to_string());
    record.artists = Some(vec!["A".to_string(), "B".to_string()]);
    record.composer = Some("dropped".to_string());
    replay(&mut tag, record);
    assert_eq!(tag.title(), Some("New title"));
    assert_eq!(tag.artist(), Some("A+B"));
    assert_eq!(tag.genre(), Some("Kept"));
    assert_eq!(tag.composer(), None);
    assert_eq!(tag.config().sep_artist, "+");
    assert_eq!(
        tag.inner().header().comment_list,
        list(&[("genre", "Kept"), ("custom", "kept too"), ("title", "New title"), ("artist", "A+B")])
    );
}

#[test]
fn record_joins_artists_with_its_separator() {
    let mut record = AnyTag::new(Config::default());
    assert_eq!(record.artists_as_string(), None);
    assert_eq!(record.album_artists_as_string(), None);
    record.artists = Some(vec!["A".to_string(), "B".to_string(), "C".to_string()]);
    record.album_artists = Some(vec!["X".to_string()]);
    assert_eq!(record.artists_as_string(), Some("A;B;C".to_string()));
    assert_eq!(record.album_artists_as_string(), Some("X".to_string()));
    record.config = record.config.sep_artist(" feat. ");
    assert_eq!(record.artists_as_string(), Some("A feat. B feat. C".to_string()));
}

#[test]
fn picture_clone_copies_bytes_and_kind() {
    let picture = Picture::new(vec![1, 2, 3, 255], MimeType::Jpeg);
    let copy = picture.clone();
    assert_eq!(copy.data, vec![1, 2, 3, 255]);
    assert_eq!(copy.mime_type, MimeType::Jpeg);
    assert_eq!(picture.data, copy.data);
}

#[test]
fn config_default_and_builders() {
    let config = Config::default();
    assert_eq!(config.sep_artist, ";");
    assert!(config.parse_multiple_artists);
    let other = config.sep_artist(", ").parse_multiple_artists(false);
    assert_eq!(other.sep_artist, ", ");
    assert!(!other.parse_multiple_artists);
    assert_eq!(config.sep_artist, ";");
}
