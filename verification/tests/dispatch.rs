use audiotags::tag_type::detect;
use audiotags::{AudioTagEdit, Error, Tag, TagType, VorbisInnerTag, VorbisTag};
use oggvorbismeta::CommentHeader;

fn list(comments: &[(&str, &str)]) -> Vec<(String, String)> {
    comments.iter().map(|(name, value)| (name.to_string(), value.to_string())).collect()
}

fn vorbis(comments: &[(&str, &str)]) -> Tag {
    let header = CommentHeader { vendor: "Ogg".to_string(), comment_list: list(comments) };
    Tag::Vorbis(VorbisTag::from_inner(VorbisInnerTag::from_header(header)))
}

#[test]
fn extension_ogg_is_vorbis() {
    assert!(matches!(TagType::try_from_ext("ogg"), Ok(TagType::Vorbis)));
    assert!(matches!(detect("ogg", None), Ok(TagType::Vorbis)));
}

#[test]
fn unknown_extension_is_an_unsupported_format() {
    for ext in ["xyz", "", "OGG", "og", "oggs", "mp3", "txt"] {
        match TagType::try_from_ext(ext) {
            Err(Error::UnsupportedFormat(asked)) => assert_eq!(asked, ext),
            other => panic!("unexpected {:?} for {:?}", other, ext),
        }
    }
}

#[test]
fn dispatcher_falls_back_to_an_error() {
    match detect("xyz", None) {
        Err(Error::UnsupportedFormat(asked)) => assert_eq!(asked, "xyz"),
        other => panic!("unexpected {:?}", other),
    }
}

#[test]
fn dispatcher_takes_the_sniffed_format_for_an_unknown_extension() {
    assert!(matches!(detect("bin", Some(TagType::Vorbis)), Ok(TagType::Vorbis)));
    assert!(matches!(detect("ogg", Some(TagType::Vorbis)), Ok(TagType::Vorbis)));
}

#[test]
fn fresh_tag_of_a_format_is_empty() {
    let tag = Tag::new(TagType::Vorbis);
    assert_eq!(tag.tag_type(), TagType::Vorbis);
    assert_eq!(tag.title(), None);
    assert_eq!(tag.year(), None);
    assert!(tag.as_vorbis().unwrap().inner().header().comment_list.is_empty());
    assert_eq!(tag.config().sep_artist, ";");
    assert!(tag.config().parse_multiple_artists);
}

#[test]
fn converting_to_the_same_format_changes_nothing() {
    let comments = [
        ("TITLE", "first"),
        ("custom", "kept"),
        ("title", "second"),
        ("date", "not a year"),
        ("ARTIST", "A;B"),
    ];
    let tag = vorbis(&comments).convert(TagType::Vorbis);
    assert_eq!(tag.tag_type(), TagType::Vorbis);
    let header = tag.into_vorbis_inner().into_header();
    assert_eq!(header.comment_list, list(&comments));
    assert_eq!(header.vendor, "Ogg");
}

#[test]
fn into_vorbis_hands_out_the_adapter() {
    let tag = vorbis(&[("title", "T"), ("custom", "kept")]).into_vorbis();
    assert_eq!(tag.title(), Some("T"));
    assert_eq!(tag.inner().header().comment_list, list(&[("title", "T"), ("custom", "kept")]));
}

#[test]
fn polymorphic_tag_hands_calls_to_its_adapter() {
    let mut tag = vorbis(&[("title", "Song A")]);
    assert_eq!(tag.title(), Some("Song A"));
    tag.set_artist("Band B");
    tag.set_year(1997);
    tag.set_track_number(3);
    tag.set_album_title("L");
    tag.set_genre("G");
    tag.set_comment("C".to_string());
    tag.set_composer("nobody".to_string());
    tag.set_total_tracks(12);
    assert_eq!(tag.artist(), Some("Band B"));
    assert_eq!(tag.year(), Some(1997));
    assert_eq!(tag.track_number(), Some(3));
    assert_eq!(tag.album_title(), Some("L"));
    assert_eq!(tag.genre(), Some("G"));
    assert_eq!(tag.comment(), Some("C"));
    assert_eq!(tag.composer(), None);
    assert_eq!(tag.total_tracks(), None);
    assert_eq!(tag.artists(), Some(vec!["Band B".to_string()]));
    tag.remove_title();
    tag.remove_year();
    assert_eq!(tag.title(), None);
    assert_eq!(tag.year(), None);
    let record = tag.to_anytag();
    assert_eq!(record.artists, Some(vec!["Band B".to_string()]));
    assert_eq!(record.track_number, Some(3));
    assert_eq!(
        tag.as_vorbis().unwrap().inner().header().comment_list,
        list(&[
            ("artist", "Band B"),
            ("tracknumber", "3"),
            ("album", "L"),
            ("genre", "G"),
            ("description", "C"),
        ])
    );
}
