use audiotags::{AudioTagEdit, VorbisInnerTag, VorbisTag};
use ogg::writing::{PacketWriteEndInfo, PacketWriter};
use oggvorbismeta::{make_comment_header, read_comment_header, replace_comment_header, CommentHeader};
use std::io::Cursor;

fn stream_with(header: &CommentHeader) -> Vec<u8> {
    let mut bytes: Vec<u8> = Vec::new();
    {
        let mut writer = PacketWriter::new(&mut bytes);
        let identification: Vec<u8> = vec![1, b'v', b'o', b'r', b'b', b'i', b's', 0, 0, 0, 0];
        writer.write_packet(identification, 7, PacketWriteEndInfo::EndPage, 0).unwrap();
        let comments = make_comment_header(header).unwrap();
        writer.write_packet(comments, 7, PacketWriteEndInfo::NormalPacket, 0).unwrap();
        let setup: Vec<u8> = vec![5, b'v', b'o', b'r', b'b', b'i', b's'];
        writer.write_packet(setup, 7, PacketWriteEndInfo::EndPage, 0).unwrap();
        let audio: Vec<u8> = vec![0, 1, 2, 3, 4, 5, 6, 7];
        writer.write_packet(audio, 7, PacketWriteEndInfo::EndStream, 1).unwrap();
    }
    bytes
}

fn read(bytes: &[u8]) -> VorbisTag {
    let header = read_comment_header(Cursor::new(bytes)).unwrap();
    VorbisTag::from_inner(VorbisInnerTag::from_header(header))
}

#[test]
fn single_format_edit_survives_writing_and_reading() {
    let initial = CommentHeader {
        vendor: "Ogg".to_string(),
        comment_list: vec![("TITLE".to_string(), "Song A".to_string())],
    };
    let file = stream_with(&initial);

    let mut tag = read(&file);
    assert_eq!(tag.title(), Some("Song A"));
    assert_eq!(tag.artist(), None);
    tag.set_artist("Band B");

    let written = replace_comment_header(Cursor::new(&file), tag.inner().header())
        .unwrap()
        .into_inner();

    let reread = read(&written);
    assert_eq!(reread.title(), Some("Song A"));
    assert_eq!(reread.artist(), Some("Band B"));
    assert_eq!(reread.inner().header().vendor, "Ogg");
}

#[test]
fn numbers_survive_writing_and_reading() {
    let file = stream_with(&CommentHeader { vendor: String::new(), comment_list: Vec::new() });
    let mut tag = read(&file);
    tag.set_year(1997);
    tag.set_track_number(3);
    tag.set_comment("a=b".to_string());
    let written = replace_comment_header(Cursor::new(&file), tag.inner().header())
        .unwrap()
        .into_inner();
    let reread = read(&written);
    assert_eq!(reread.year(), Some(1997));
    assert_eq!(reread.track_number(), Some(3));
    assert_eq!(reread.comment(), Some("a=b"));
}
