use std::io::Cursor;

use euterpe_server::library::covers::{CoverMime, EMBED_MAX_COVER_BYTES};
use euterpe_server::library::embed::{
    check_embed_size, cover_for_track, embed_encoding_step, embed_mime, embed_target,
    finish_cover_rewrite,
    optimize_cover_for_embed, resize_dimensions, rewrite_with_cover,
    storage_cover_rewrite_max_bytes, EmbedBytes, EmbedStep,
};
use euterpe_server::error::ApiError;
use euterpe_server::library::storage::StoragePath;
use image::{ImageBuffer, Rgb};
use lofty::file::TaggedFileExt;
use lofty::probe::Probe;

fn small_png() -> Vec<u8> {
    let img = ImageBuffer::from_fn(32, 32, |x, y| Rgb([x as u8, y as u8, 128]));
    let mut buf = Vec::new();
    img.write_to(&mut Cursor::new(&mut buf), image::ImageFormat::Png)
        .unwrap();
    buf
}

fn silent_wav() -> Vec<u8> {
    let samples = 512u32;
    let data_len = samples * 2;
    let mut v = Vec::new();
    v.extend_from_slice(b"RIFF");
    v.extend_from_slice(&(36 + data_len).to_le_bytes());
    v.extend_from_slice(b"WAVE");
    v.extend_from_slice(b"fmt ");
    v.extend_from_slice(&16u32.to_le_bytes());
    v.extend_from_slice(&1u16.to_le_bytes());
    v.extend_from_slice(&1u16.to_le_bytes());
    v.extend_from_slice(&44100u32.to_le_bytes());
    v.extend_from_slice(&(44100u32 * 2).to_le_bytes());
    v.extend_from_slice(&2u16.to_le_bytes());
    v.extend_from_slice(&16u16.to_le_bytes());
    v.extend_from_slice(b"data");
    v.extend_from_slice(&data_len.to_le_bytes());
    v.extend(std::iter::repeat(0u8).take(data_len as usize));
    v
}

#[test]
fn optimize_leaves_small_png_unchanged() {
    let img = ImageBuffer::from_fn(32, 32, |x, y| Rgb([x as u8, y as u8, 128]));
    let mut buf = Vec::new();
    img.write_to(&mut Cursor::new(&mut buf), image::ImageFormat::Png)
        .unwrap();
    assert!(buf.len() <= EMBED_MAX_COVER_BYTES);
    let out = optimize_cover_for_embed(&buf);
    assert!(matches!(out, EmbedBytes::Borrowed(_)));
}

#[test]
fn oversized_png_is_reencoded_as_fitting_jpeg() {
    // Pseudo-random pixels: PNG cannot compress them below the embed limit.
    let mut state: u32 = 0x1234_5678;
    let img = ImageBuffer::from_fn(900, 900, |_, _| {
        let mut px = [0u8; 3];
        for c in px.iter_mut() {
            state = state.wrapping_mul(1_664_525).wrapping_add(1_013_904_223);
            *c = (state >> 24) as u8;
        }
        Rgb(px)
    });
    let mut buf = Vec::new();
    img.write_to(&mut Cursor::new(&mut buf), image::ImageFormat::Png)
        .unwrap();
    assert!(buf.len() > EMBED_MAX_COVER_BYTES);
    let (bytes, mime) = cover_for_track("A/01.flac", &buf, &CoverMime::Png).unwrap();
    assert!(matches!(bytes, EmbedBytes::Owned(_)));
    assert!(bytes.len() <= EMBED_MAX_COVER_BYTES);
    assert_eq!(mime, CoverMime::Jpeg);
}

#[test]
fn undecodable_oversized_cover_is_kept() {
    let junk = vec![7u8; EMBED_MAX_COVER_BYTES + 1];
    match optimize_cover_for_embed(&junk) {
        EmbedBytes::Borrowed(b) => assert_eq!(b.len(), junk.len()),
        EmbedBytes::Owned(_) => panic!("junk must not be re-encoded"),
    }
}

#[test]
fn resize_keeps_aspect_with_long_side_at_max() {
    assert_eq!(resize_dimensions(3200, 1600, 1600), (1600, 800));
    assert_eq!(resize_dimensions(1000, 4000, 1600), (400, 1600));
    assert_eq!(resize_dimensions(2000, 2000, 1600), (1600, 1600));
    assert_eq!(resize_dimensions(3000, 1, 1600), (1600, 0));
}

#[test]
fn encoding_step_accepts_fitting_bytes() {
    assert!(matches!(embed_encoding_step(None), EmbedStep::Abandon));
    assert!(matches!(embed_encoding_step(Some(vec![1, 2, 3])), EmbedStep::Accept(v) if v == vec![1, 2, 3]));
    let big = vec![0u8; EMBED_MAX_COVER_BYTES + 1];
    assert!(matches!(embed_encoding_step(Some(big)), EmbedStep::Next(v) if v.len() == EMBED_MAX_COVER_BYTES + 1));
}

#[test]
fn embed_mime_is_jpeg_after_reencoding() {
    let data = [1u8, 2, 3];
    assert_eq!(embed_mime(&EmbedBytes::Borrowed(&data), &CoverMime::Png), CoverMime::Png);
    assert_eq!(embed_mime(&EmbedBytes::Owned(vec![1]), &CoverMime::Png), CoverMime::Jpeg);
}

#[test]
fn cover_for_track_skips_non_audio() {
    let png = small_png();
    assert!(cover_for_track("Album/notes.txt", &png, &CoverMime::Png).is_none());
    let (bytes, mime) = cover_for_track("Album/01.flac", &png, &CoverMime::Png).unwrap();
    assert!(matches!(bytes, EmbedBytes::Borrowed(_)));
    assert_eq!(mime, CoverMime::Png);
}

#[test]
fn rewrite_limit_reads_configured_value() {
    assert_eq!(storage_cover_rewrite_max_bytes(None), 536_870_912);
    assert_eq!(storage_cover_rewrite_max_bytes(Some("1024")), 1024);
    assert_eq!(storage_cover_rewrite_max_bytes(Some("lots")), 536_870_912);
    assert_eq!(storage_cover_rewrite_max_bytes(Some("-5")), 536_870_912);
}

#[test]
fn embed_target_skips_non_audio_and_rejects_escapes() {
    assert!(embed_target("Album/cover.jpg").unwrap().is_none());
    assert_eq!(embed_target("Album/01.flac").unwrap().unwrap().as_str(), "Album/01.flac");
    assert!(embed_target("../x.flac").is_err());
}

#[test]
fn oversized_track_is_refused() {
    let path = StoragePath::parse("A/01.flac").unwrap();
    assert!(check_embed_size(&path, 10, 10).is_ok());
    let err = check_embed_size(&path, 11, 10).unwrap_err();
    assert_eq!(
        err.message(),
        "PAYLOAD_TOO_LARGE: STORAGE_COVER_EMBED_TOO_LARGE: A/01.flac is 11 bytes, max is 10 bytes"
    );
    assert_eq!(err.status(), 413);
}

#[test]
fn rewrite_embeds_cover_into_wav() {
    let path = StoragePath::parse("A/01.wav").unwrap();
    let wav = silent_wav();
    let png = small_png();
    let out = rewrite_with_cover(&path, &wav, &png, &CoverMime::Png, 1 << 20).unwrap();
    assert!(out.len() > wav.len());
    let tagged = Probe::new(Cursor::new(out))
        .guess_file_type()
        .unwrap()
        .read()
        .unwrap();
    let tag = tagged.primary_tag().unwrap();
    assert_eq!(tag.pictures().len(), 1);
    assert_eq!(tag.pictures()[0].data(), png.as_slice());
}

#[test]
fn rewrite_refuses_unreadable_audio_and_large_results() {
    let path = StoragePath::parse("A/01.wav").unwrap();
    let png = small_png();
    let err = rewrite_with_cover(&path, b"not audio at all", &png, &CoverMime::Png, 1 << 20).unwrap_err();
    assert!(err.message().starts_with("read A/01.wav: "));
    let wav = silent_wav();
    let err = rewrite_with_cover(&path, &wav, &png, &CoverMime::Png, wav.len() as u64).unwrap_err();
    assert!(err
        .message()
        .starts_with("PAYLOAD_TOO_LARGE: STORAGE_COVER_EMBED_TOO_LARGE: A/01.wav rewritten size is "));
    let err = rewrite_with_cover(&path, &wav, &png, &CoverMime::Png, 10).unwrap_err();
    assert!(err.message().ends_with("is 1068 bytes, max is 10 bytes"));
}

#[test]
fn resize_cover_image_takes_computed_size() {
    let img = image::DynamicImage::new_rgb8(320, 160);
    let out = euterpe_server::library::embed::resize_cover_image(img, 100);
    assert_eq!((out.width(), out.height()), (100, 50));
    let empty = image::DynamicImage::new_rgb8(0, 0);
    let out = euterpe_server::library::embed::resize_cover_image(empty, 100);
    assert_eq!((out.width(), out.height()), (0, 0));
}

#[test]
fn finish_cover_rewrite_answers_each_outcome() {
    let track = StoragePath::parse("A/B/01.wav").unwrap();
    assert_eq!(finish_cover_rewrite(&track, Ok(vec![1, 2, 3]), 3).unwrap(), vec![1, 2, 3]);
    match finish_cover_rewrite(&track, Ok(vec![1, 2, 3, 4]), 3) {
        Err(ApiError::Message(m)) => assert_eq!(
            m,
            "PAYLOAD_TOO_LARGE: STORAGE_COVER_EMBED_TOO_LARGE: A/B/01.wav rewritten size is 4 bytes, max is 3 bytes"
        ),
        other => panic!("unexpected {other:?}"),
    }
    match finish_cover_rewrite(&track, Err("disk full".to_string()), 3) {
        Err(ApiError::Message(m)) => assert_eq!(m, "embed cover A/B/01.wav: disk full"),
        other => panic!("unexpected {other:?}"),
    }
}
