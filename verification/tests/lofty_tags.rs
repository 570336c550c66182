use std::io::Cursor;

use euterpe_server::library::lofty_tags::{apply_tag_write_plan, read_tagged_fields};
use euterpe_server::library::tag_io::{tag_write_plan, track_tags_from_fields};
use euterpe_server::library::tags::TrackTags;
use lofty::file::{AudioFile, TaggedFile};
use lofty::config::WriteOptions;
use lofty::probe::Probe;

fn silent_wav() -> Vec<u8> {
    let samples = 512u32;
    let data_len = samples * 2;
    let mut v = Vec::new();
    v.extend_from_slice(b"RIFF");
    v.extend_from_slice(&(36 + data_len).to_le_bytes());
    v.extend_from_slice(b"WAVE");
    v.extend_from_slice(b"fmt ");
    v.extend_from_slice(&16u32.to_le_bytes());
    v.extend_from_slice(&1u16.to_le_bytes());
    v.extend_from_slice(&1u16.to_le_bytes());
    v.extend_from_slice(&44100u32.to_le_bytes());
    v.extend_from_slice(&(44100u32 * 2).to_le_bytes());
    v.extend_from_slice(&2u16.to_le_bytes());
    v.extend_from_slice(&16u16.to_le_bytes());
    v.extend_from_slice(b"data");
    v.extend_from_slice(&data_len.to_le_bytes());
    v.extend(std::iter::repeat(0u8).take(data_len as usize));
    v
}

fn parse(bytes: Vec<u8>) -> TaggedFile {
    Probe::new(Cursor::new(bytes)).guess_file_type().unwrap().read().unwrap()
}

#[test]
fn untagged_wav_has_no_fields() {
    let tagged = parse(silent_wav());
    let (fields, duration) = read_tagged_fields(&tagged);
    assert!(fields.is_none());
    assert_eq!(duration, 0);
    let tags = track_tags_from_fields("Artist/Album/01 - Song.wav", fields.as_ref(), duration);
    assert_eq!(tags.title, "Song");
}

#[test]
fn written_plan_reads_back() {
    let original = TrackTags {
        title: "Test Song".into(),
        artist: "Test Artist".into(),
        album: "Test Album".into(),
        track_number: Some(3),
        year: Some(2024),
        disc_number: Some(2),
        track_total: Some(12),
        disc_total: Some(2),
        genre: Some("Rock".into()),
        duration_sec: None,
        qobuz_track_id: Some(999),
        qobuz_album_id: Some(4242),
        label: Some("Indie Records".into()),
        isrc: Some("USRC17607839".into()),
        composer: Some("Test Composer".into()),
    };
    let wav = silent_wav();
    let mut tagged = parse(wav.clone());
    apply_tag_write_plan(&mut tagged, &tag_write_plan(&original));
    let mut cursor = Cursor::new(wav);
    tagged.save_to(&mut cursor, WriteOptions::default()).unwrap();
    let reread = parse(cursor.into_inner());
    let (fields, duration) = read_tagged_fields(&reread);
    let read = track_tags_from_fields("01.wav", fields.as_ref(), duration);
    assert_eq!(read.title, "Test Song");
    assert_eq!(read.artist, "Test Artist");
    assert_eq!(read.album, "Test Album");
    assert_eq!(read.track_number, Some(3));
    assert_eq!(read.year, Some(2024));
    assert_eq!(read.disc_number, Some(2));
    assert_eq!(read.track_total, Some(12));
    assert_eq!(read.disc_total, Some(2));
    assert_eq!(read.genre.as_deref(), Some("Rock"));
    assert_eq!(read.qobuz_track_id, Some(999));
    assert_eq!(read.qobuz_album_id, Some(4242));
    assert_eq!(read.isrc.as_deref(), Some("USRC17607839"));
    assert_eq!(read.composer.as_deref(), Some("Test Composer"));
}

#[test]
fn written_plan_reads_back_before_save() {
    let original = TrackTags {
        title: "Song".into(),
        artist: "Artist".into(),
        album: "Album".into(),
        track_number: Some(7),
        year: Some(1999),
        disc_number: None,
        track_total: None,
        disc_total: None,
        genre: None,
        duration_sec: None,
        qobuz_track_id: None,
        qobuz_album_id: None,
        label: Some("Indie Records".into()),
        isrc: None,
        composer: None,
    };
    let mut tagged = parse(silent_wav());
    apply_tag_write_plan(&mut tagged, &tag_write_plan(&original));
    let (fields, duration) = read_tagged_fields(&tagged);
    let f = fields.unwrap();
    assert_eq!(f.title.as_deref(), Some("Song"));
    assert_eq!(f.track, Some(7));
    assert_eq!(f.year, Some(1999));
    assert_eq!(f.label.as_deref(), Some("Indie Records"));
    assert_eq!(f.genre, None);
    assert_eq!(duration, 0);
}
