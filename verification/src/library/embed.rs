//! Embedding an album cover into a track's tags: when the cover is shrunk
//! before it is embedded, which type it is embedded as, and the size limits
//! on rewriting a track kept in library storage.

use std::io::Cursor;

use image::codecs::jpeg::JpegEncoder;
use image::imageops::FilterType;
use image::{DynamicImage, GenericImageView, ImageReader};
use lofty::config::WriteOptions;
use lofty::file::{AudioFile, TaggedFile, TaggedFileExt};
use lofty::picture::{MimeType, Picture, PictureType};
use lofty::probe::Probe;
use lofty::tag::Tag;
use vstd::prelude::*;

use crate::error::{is_message, ApiError};
use crate::library::covers::{
    mime_view, CoverMime, MimeView, EMBED_MAX_COVER_BYTES, EMBED_MAX_COVER_DIMENSION,
};
use crate::library::storage::{storage_error_matches, storage_parse_spec, StoragePath};
use crate::library::lofty_tags::{
    insert_tag, lemma_first_of_kind, new_primary_tag, primary_base, primary_tag_clone, tag_kind,
    tag_pictures, tag_texts, tagged_duration_secs, tagged_primary_kind, tagged_readable_kinds,
    tagged_tags, with_primary,
};
use crate::library::tags::{is_audio_file, is_audio_file_spec};
use crate::text::{
    append_chars, chars_of, dec_nat, fmt_u64, parse_u64, parse_u64_spec, slice_u8, str_to_string,
    string_of,
};

verus! {

#[verifier::external_type_specification]
#[verifier::external_body]
pub struct ExDynamicImage(DynamicImage);

#[verifier::external_type_specification]
#[verifier::external_body]
pub struct ExTaggedFile(TaggedFile);

#[verifier::external_type_specification]
#[verifier::external_body]
pub struct ExTag(Tag);

#[verifier::external_type_specification]
#[verifier::external_body]
pub struct ExPicture(Picture);

/// Lowest JPEG quality tried when re-encoding a cover.
pub const EMBED_MIN_JPEG_QUALITY: u8 = 60;

/// Default limit on the size of a stored track rewritten to embed a cover.
pub const DEFAULT_STORAGE_COVER_REWRITE_MAX_BYTES: u64 = 536870912;

/// The JPEG qualities tried in turn, best first.
pub open spec fn embed_jpeg_qualities() -> Seq<u8> {
    seq![95u8, 85u8, 75u8, 65u8, EMBED_MIN_JPEG_QUALITY]
}

fn embed_jpeg_quality(i: usize) -> (q: u8)
    requires
        i < 5,
    ensures
        q == embed_jpeg_qualities()[i as int],
{
    match i {
        0 => 95,
        1 => 85,
        2 => 75,
        3 => 65,
        _ => EMBED_MIN_JPEG_QUALITY,
    }
}

/// Cover bytes to embed: the cover as given, or a re-encoded copy.
pub enum EmbedBytes<'a> {
    Borrowed(&'a [u8]),
    Owned(Vec<u8>),
}

impl<'a> EmbedBytes<'a> {
    pub open spec fn bytes(self) -> Seq<u8> {
        match self {
            EmbedBytes::Borrowed(b) => b@,
            EmbedBytes::Owned(v) => v@,
        }
    }

    pub fn len(&self) -> (r: usize)
        ensures
            r == self.bytes().len(),
    {
        match self {
            EmbedBytes::Borrowed(b) => b.len(),
            EmbedBytes::Owned(v) => v.len(),
        }
    }

    pub fn into_owned(self) -> (r: Vec<u8>)
        ensures
            r@ == self.bytes(),
    {
        match self {
            EmbedBytes::Borrowed(b) => slice_u8(b, 0, b.len()),
            EmbedBytes::Owned(v) => v,
        }
    }
}

/// Size of the cover after resizing its longer side to `max_dim`, the other
/// side scaled in proportion and rounded down.
pub open spec fn resized_dims(width: nat, height: nat, max_dim: nat) -> (nat, nat) {
    if width > height {
        (max_dim, height * max_dim / width)
    } else {
        (width * max_dim / height, max_dim)
    }
}

proof fn lemma_scaled_side_bounded(short: nat, long: nat, max_dim: nat)
    requires
        short <= long,
        long > 0,
    ensures
        short * max_dim / long <= max_dim,
{
    vstd::arithmetic::mul::lemma_mul_inequality(short as int, long as int, max_dim as int);
    vstd::arithmetic::div_mod::lemma_div_is_ordered(
        (short * max_dim) as int,
        (long * max_dim) as int,
        long as int,
    );
    vstd::arithmetic::div_mod::lemma_div_multiples_vanish(max_dim as int, long as int);
}

proof fn lemma_u32_product_fits(a: u32, b: u32)
    ensures
        (a as int) * (b as int) <= u64::MAX,
{
    assert((a as int) * (b as int) <= 0xffff_ffffint * 0xffff_ffffint) by (nonlinear_arith)
        requires
            a <= 0xffff_ffff,
            b <= 0xffff_ffff,
            a >= 0,
            b >= 0,
    ;
}

/// The size a cover is resized to; neither side exceeds `max_dim`.
pub fn resize_dimensions(width: u32, height: u32, max_dim: u32) -> (r: (u32, u32))
    requires
        width > 0 || height > 0,
    ensures
        r.0 == resized_dims(width as nat, height as nat, max_dim as nat).0,
        r.1 == resized_dims(width as nat, height as nat, max_dim as nat).1,
        r.0 <= max_dim,
        r.1 <= max_dim,
{
    if width > height {
        proof {
            lemma_scaled_side_bounded(height as nat, width as nat, max_dim as nat);
            lemma_u32_product_fits(height, max_dim);
        }
        let h: u64 = (height as u64) * (max_dim as u64) / (width as u64);
        (max_dim, h as u32)
    } else {
        proof {
            lemma_scaled_side_bounded(width as nat, height as nat, max_dim as nat);
            lemma_u32_product_fits(width, max_dim);
        }
        let w: u64 = (width as u64) * (max_dim as u64) / (height as u64);
        (w as u32, max_dim)
    }
}

/// `image::ImageReader::with_guessed_format` followed by `decode`, on the
/// bytes in memory; either failure gives `None`. The decoded image is opaque
/// here, so nothing is stated of it.
#[verifier::external_body]
fn decode_cover_image(data: &[u8]) -> (r: Option<DynamicImage>) {
    ImageReader::new(Cursor::new(data)).with_guessed_format().ok()?.decode().ok()
}

/// The raw bytes of an image's pixels, row by row
/// (`image::DynamicImage::as_bytes`).
pub uninterp spec fn image_bytes(img: DynamicImage) -> Seq<u8>;

/// The width and height an image buffer was made with.
pub uninterp spec fn image_size(img: DynamicImage) -> (u32, u32);

/// `image::GenericImageView::dimensions` of a decoded image: its width and
/// height.
#[verifier::external_body]
fn image_dimensions(img: &DynamicImage) -> (r: (u32, u32))
    ensures
        r == image_size(*img),
{
    img.dimensions()
}

/// `image::DynamicImage::resize_exact` with the Catmull-Rom filter. Its
/// source builds the result with exactly the requested width and height,
/// and copies the pixels unchanged when they are the image's own.
#[verifier::external_body]
fn resize_exact_catmull_rom(img: &DynamicImage, width: u32, height: u32) -> (r: DynamicImage)
    ensures
        image_size(r) == (width, height),
        (width, height) == image_size(*img) ==> image_bytes(r) == image_bytes(*img),
{
    img.resize_exact(width, height, FilterType::CatmullRom)
}

/// `image::codecs::jpeg::JpegEncoder::encode` of the image converted to RGB
/// with `to_rgb8`, at the given quality; `None` when encoding fails. The
/// encoded bytes depend on the opaque image, so nothing is stated of them.
#[verifier::external_body]
fn encode_cover_jpeg(img: &DynamicImage, quality: u8) -> (r: Option<Vec<u8>>) {
    let rgb = img.to_rgb8();
    let (w, h) = rgb.dimensions();
    let mut buf = Vec::new();
    let mut enc = JpegEncoder::new_with_quality(&mut buf, quality);
    enc.encode(rgb.as_raw(), w, h, image::ExtendedColorType::Rgb8).ok()?;
    Some(buf)
}

/// Resize a cover so that its longer side is `max_dim` and the other side
/// keeps the proportion (rounded down); an image with no pixels stays as
/// it is.
pub fn resize_cover_image(img: DynamicImage, max_dim: u32) -> (r: DynamicImage)
    ensures
        image_size(img) == (0u32, 0u32) ==> r == img,
        image_size(img) != (0u32, 0u32) ==> image_size(r) == (
            resized_dims(image_size(img).0 as nat, image_size(img).1 as nat, max_dim as nat).0 as u32,
            resized_dims(image_size(img).0 as nat, image_size(img).1 as nat, max_dim as nat).1 as u32,
        ),
        image_size(img) != (0u32, 0u32) ==> image_size(r).0 <= max_dim && image_size(r).1 <= max_dim,
{
    let (width, height) = image_dimensions(&img);
    if width == 0 && height == 0 {
        return img;
    }
    let (new_width, new_height) = resize_dimensions(width, height, max_dim);
    resize_exact_catmull_rom(&img, new_width, new_height)
}

/// What one JPEG encoding attempt decides.
pub enum EmbedStep {
    /// The encoding fits: it is embedded.
    Accept(Vec<u8>),
    /// The encoding is still too large: the next quality is tried.
    Next(Vec<u8>),
    /// Encoding failed: the cover is embedded as given.
    Abandon,
}

/// The decision on one encoding attempt: a failed encoding abandons
/// re-encoding, one within the embed limit is taken, a larger one is kept
/// as the fallback while the next quality is tried.
pub fn embed_encoding_step(encoded: Option<Vec<u8>>) -> (r: EmbedStep)
    ensures
        encoded is None ==> r is Abandon,
        encoded matches Some(b) ==> (b.len() <= EMBED_MAX_COVER_BYTES ==> r == EmbedStep::Accept(b)),
        encoded matches Some(b) ==> (b.len() > EMBED_MAX_COVER_BYTES ==> r == EmbedStep::Next(b)),
{
    match encoded {
        None => EmbedStep::Abandon,
        Some(b) => if b.len() <= EMBED_MAX_COVER_BYTES {
            EmbedStep::Accept(b)
        } else {
            EmbedStep::Next(b)
        },
    }
}

/// Prepare cover bytes for embedding in a track's tags: covers within the
/// embed limit are used as given; larger ones are decoded, resized when a
/// side exceeds the maximum dimension, and re-encoded as JPEG at decreasing
/// quality until one fits (the last encoding when none does). A cover that
/// cannot be decoded or encoded is used as given.
pub fn optimize_cover_for_embed<'a>(data: &'a [u8]) -> (r: EmbedBytes<'a>)
    ensures
        data.len() <= EMBED_MAX_COVER_BYTES ==> r == EmbedBytes::Borrowed(data),
        r matches EmbedBytes::Borrowed(b) ==> b == data,
        r is Owned ==> data.len() > EMBED_MAX_COVER_BYTES,
{
    if data.len() <= EMBED_MAX_COVER_BYTES {
        return EmbedBytes::Borrowed(data);
    }
    let decoded = decode_cover_image(data);
    let mut img = match decoded {
        Some(i) => i,
        None => return EmbedBytes::Borrowed(data),
    };
    let (width, height) = image_dimensions(&img);
    if width > EMBED_MAX_COVER_DIMENSION || height > EMBED_MAX_COVER_DIMENSION {
        img = resize_cover_image(img, EMBED_MAX_COVER_DIMENSION);
    }
    let mut last: Option<Vec<u8>> = None;
    let mut i: usize = 0;
    while i < 5
        invariant
            i <= 5,
            data.len() > EMBED_MAX_COVER_BYTES,
        decreases 5 - i,
    {
        let quality = embed_jpeg_quality(i);
        match embed_encoding_step(encode_cover_jpeg(&img, quality)) {
            EmbedStep::Accept(bytes) => return EmbedBytes::Owned(bytes),
            EmbedStep::Next(bytes) => {
                last = Some(bytes);
            },
            EmbedStep::Abandon => return EmbedBytes::Borrowed(data),
        }
        i = i + 1;
    }
    match last {
        Some(bytes) => EmbedBytes::Owned(bytes),
        None => EmbedBytes::Owned(slice_u8(data, 0, data.len())),
    }
}

pub fn clone_mime(m: &CoverMime) -> (r: CoverMime)
    ensures
        mime_view(r) == mime_view(*m),
{
    match m {
        CoverMime::Png => CoverMime::Png,
        CoverMime::Jpeg => CoverMime::Jpeg,
        CoverMime::Tiff => CoverMime::Tiff,
        CoverMime::Bmp => CoverMime::Bmp,
        CoverMime::Gif => CoverMime::Gif,
        CoverMime::Unknown(s) => CoverMime::Unknown(str_to_string(s.as_str())),
    }
}

/// The picture type a cover is embedded as: its own when it is embedded as
/// given, JPEG when it was re-encoded.
pub fn embed_mime(bytes: &EmbedBytes, mime: &CoverMime) -> (r: CoverMime)
    ensures
        bytes is Borrowed ==> mime_view(r) == mime_view(*mime),
        bytes is Owned ==> r == CoverMime::Jpeg,
{
    match bytes {
        EmbedBytes::Borrowed(_) => clone_mime(mime),
        EmbedBytes::Owned(_) => CoverMime::Jpeg,
    }
}

/// The cover to embed into a track and its picture type; `None` for a file
/// that is not audio, which is left alone.
pub fn cover_for_track<'a>(track_path: &str, cover_bytes: &'a [u8], mime: &CoverMime) -> (r:
    Option<(EmbedBytes<'a>, CoverMime)>)
    ensures
        !is_audio_file_spec(track_path@) <==> r is None,
        r matches Some(p) ==> (cover_bytes.len() <= EMBED_MAX_COVER_BYTES ==> p.0 == EmbedBytes::Borrowed(cover_bytes)),
        r matches Some(p) ==> (p.0 is Borrowed ==> mime_view(p.1) == mime_view(*mime)),
        r matches Some(p) ==> (p.0 is Owned ==> p.1 == CoverMime::Jpeg),
{
    if !is_audio_file(track_path) {
        return None;
    }
    let bytes = optimize_cover_for_embed(cover_bytes);
    let embed_as = embed_mime(&bytes, mime);
    Some((bytes, embed_as))
}

/// The data of a picture (`Picture::data`).
pub uninterp spec fn picture_data(picture: Picture) -> Seq<u8>;

/// A tag's pictures once `data` becomes its first picture.
pub open spec fn with_first_picture(pictures: Seq<Seq<u8>>, data: Seq<u8>) -> Seq<Seq<u8>> {
    if pictures.len() == 0 {
        seq![data]
    } else {
        pictures.update(0, data)
    }
}

/// `lofty::picture::Picture::unchecked` built as a front cover of the given
/// picture type (converted variant by variant) with no description; its
/// data is the bytes given.
#[verifier::external_body]
fn front_cover_picture(mime: &CoverMime, data: Vec<u8>) -> (r: Picture)
    ensures
        picture_data(r) == data@,
{
    let mime_type = match mime {
        CoverMime::Png => MimeType::Png,
        CoverMime::Jpeg => MimeType::Jpeg,
        CoverMime::Tiff => MimeType::Tiff,
        CoverMime::Bmp => MimeType::Bmp,
        CoverMime::Gif => MimeType::Gif,
        CoverMime::Unknown(s) => MimeType::Unknown(s.clone()),
    };
    Picture::unchecked(data).pic_type(PictureType::CoverFront).mime_type(mime_type).build()
}

/// `lofty::tag::Tag::set_picture` at index 0: replaces the tag's first
/// picture, or adds it when the tag has none; its items stay.
#[verifier::external_body]
fn set_first_picture(tag: &mut Tag, picture: Picture)
    ensures
        tag_kind(*final(tag)) == tag_kind(*old(tag)),
        tag_texts(*final(tag)) == tag_texts(*old(tag)),
        tag_pictures(*final(tag)) == with_first_picture(tag_pictures(*old(tag)), picture_data(picture)),
{
    tag.set_picture(0, picture)
}

/// Make a cover the first picture of a parsed file's primary tag, creating
/// the tag when the file has none; the tag's texts stay, and the tag
/// replaces the file's primary tag.
pub fn set_front_cover(tagged: &mut TaggedFile, mime: &CoverMime, data: Vec<u8>)
    ensures
        tagged_primary_kind(*final(tagged)) == tagged_primary_kind(*old(tagged)),
        tagged_readable_kinds(*final(tagged)) == tagged_readable_kinds(*old(tagged)),
        tagged_duration_secs(*final(tagged)) == tagged_duration_secs(*old(tagged)),
        ({
            let tags = tagged_tags(*old(tagged));
            let kind = tagged_primary_kind(*old(tagged));
            let base = primary_base(tags, kind);
            tagged_tags(*final(tagged)) == with_primary(
                tags,
                tagged_readable_kinds(*old(tagged)),
                kind,
                base.0,
                with_first_picture(base.1, data@),
            )
        }),
{
    let ghost kind = tagged_primary_kind(*tagged);
    let ghost base = primary_base(tagged_tags(*tagged), kind);
    let ghost bytes = data@;
    let found = primary_tag_clone(tagged);
    let mut tag = match found {
        Some(t) => {
            proof {
                lemma_first_of_kind(tagged_tags(*tagged), kind);
            }
            t
        },
        None => new_primary_tag(tagged),
    };
    assert(tag_kind(tag) == kind);
    let picture = front_cover_picture(mime, data);
    set_first_picture(&mut tag, picture);
    insert_tag(tagged, tag);
}

/// The text of the error the tag library reports when it cannot read audio
/// bytes as a tagged file (`Probe::guess_file_type`, then `read`), or
/// `None` when it reads them.
pub uninterp spec fn probe_failure(audio: Seq<u8>) -> Option<Seq<char>>;

/// `lofty::probe::Probe::guess_file_type` then `read` on audio bytes in
/// memory; on failure, the text of the error (`Display`).
#[verifier::external_body]
fn probe_tagged_bytes(audio: &[u8]) -> (r: Result<TaggedFile, String>)
    ensures
        r is Ok <==> probe_failure(audio@) is None,
        r matches Err(e) ==> probe_failure(audio@) == Some(e@),
{
    let probe = Probe::new(Cursor::new(audio.to_vec())).guess_file_type().map_err(|e| format!("{e}"))?;
    probe.read().map_err(|e| format!("{e}"))
}

/// `lofty::file::AudioFile::save_to` into a copy of the original audio
/// bytes, with default write options; the rewritten bytes, or the text of
/// the error (`Display`). What is written depends on all the file holds,
/// not only on what the model of its tags says, so nothing is stated of it.
#[verifier::external_body]
fn save_tagged_bytes(tagged: &TaggedFile, audio: &[u8]) -> (r: Result<Vec<u8>, String>) {
    let mut cursor = Cursor::new(audio.to_vec());
    tagged.save_to(&mut cursor, WriteOptions::default()).map_err(|e| format!("{e}"))?;
    Ok(cursor.into_inner())
}

/// The limit on the size of a stored track rewritten to embed a cover: the
/// configured value when it parses as an unsigned integer, else 512 MiB.
pub open spec fn rewrite_max_spec(value: Option<Seq<char>>) -> u64 {
    match value {
        Some(v) => match parse_u64_spec(v) {
            Some(n) => n,
            None => DEFAULT_STORAGE_COVER_REWRITE_MAX_BYTES,
        },
        None => DEFAULT_STORAGE_COVER_REWRITE_MAX_BYTES,
    }
}

pub fn storage_cover_rewrite_max_bytes(value: Option<&str>) -> (r: u64)
    ensures
        r == rewrite_max_spec(match value {
            Some(v) => Some(v@),
            None => None,
        }),
{
    match value {
        Some(v) => match parse_u64(chars_of(v).as_slice()) {
            Some(n) => n,
            None => DEFAULT_STORAGE_COVER_REWRITE_MAX_BYTES,
        },
        None => DEFAULT_STORAGE_COVER_REWRITE_MAX_BYTES,
    }
}

/// The message of a track too large to rewrite.
pub open spec fn too_large_text(path: Seq<char>, size: nat, max: nat, rewritten: bool) -> Seq<char> {
    "PAYLOAD_TOO_LARGE: "@ + "STORAGE_COVER_EMBED_TOO_LARGE: "@ + path + (if rewritten {
        " rewritten size is "@
    } else {
        " is "@
    }) + dec_nat(size) + " bytes, max is "@ + dec_nat(max) + " bytes"@
}

fn too_large_error(path: &StoragePath, size: u64, max: u64, rewritten: bool) -> (e: ApiError)
    ensures
        is_message(e, too_large_text(path@, size as nat, max as nat, rewritten)),
{
    let mut m: Vec<char> = chars_of("STORAGE_COVER_EMBED_TOO_LARGE: ");
    let p = chars_of(path.as_str());
    let middle = if rewritten {
        chars_of(" rewritten size is ")
    } else {
        chars_of(" is ")
    };
    let s = fmt_u64(size);
    let mid2 = chars_of(" bytes, max is ");
    let x = fmt_u64(max);
    let tail = chars_of(" bytes");
    append_chars(&mut m, p.as_slice());
    append_chars(&mut m, middle.as_slice());
    append_chars(&mut m, s.as_slice());
    append_chars(&mut m, mid2.as_slice());
    append_chars(&mut m, x.as_slice());
    append_chars(&mut m, tail.as_slice());
    let text = string_of(m.as_slice());
    let e = ApiError::payload_too_large(text.as_str());
    proof {
        assert(e->Message_0@ =~= too_large_text(path@, size as nat, max as nat, rewritten));
    }
    e
}

/// The stored track a cover is embedded into: the relative path parsed as a
/// storage path; `None` when the file is not audio.
pub fn embed_target(track_rel: &str) -> (r: Result<Option<StoragePath>, ApiError>)
    ensures
        match storage_parse_spec(track_rel@) {
            Ok(p) => if is_audio_file_spec(p) {
                r matches Ok(Some(t)) && t@ == p
            } else {
                r matches Ok(None)
            },
            Err(kind) => r matches Err(e) && storage_error_matches(e, kind),
        },
{
    let path = StoragePath::parse(track_rel)?;
    if !is_audio_file(path.as_str()) {
        return Ok(None);
    }
    Ok(Some(path))
}

/// A stored track may be rewritten only when its size is within the limit.
pub fn check_embed_size(track: &StoragePath, size: u64, max_bytes: u64) -> (r: Result<(), ApiError>)
    ensures
        size <= max_bytes <==> r is Ok,
        size > max_bytes ==> (r matches Err(e) && is_message(
            e,
            too_large_text(track@, size as nat, max_bytes as nat, false),
        )),
{
    if size > max_bytes {
        return Err(too_large_error(track, size, max_bytes, false));
    }
    Ok(())
}

/// The message of a failure of the tag library on a track.
pub open spec fn tag_failure_text(verb: Seq<char>, path: Seq<char>, detail: Seq<char>) -> Seq<char> {
    verb + " "@ + path + ": "@ + detail
}

fn tag_failure(verb: &str, path: &StoragePath, detail: String) -> (e: ApiError)
    ensures
        e is Message,
        e->Message_0@ == tag_failure_text(verb@, path@, detail@),
{
    let mut m = chars_of(verb);
    m.push(' ');
    let p = chars_of(path.as_str());
    append_chars(&mut m, p.as_slice());
    m.push(':');
    m.push(' ');
    let d = chars_of(detail.as_str());
    append_chars(&mut m, d.as_slice());
    proof {
        reveal_strlit(" ");
        reveal_strlit(": ");
        assert(m@ =~= tag_failure_text(verb@, path@, detail@));
    }
    ApiError::Message(string_of(m.as_slice()))
}

/// Rewrite a stored track's bytes with a cover embedded as the first
/// picture of its primary tag. The track and the rewritten bytes must both
/// be within the size limit; a track the tag library cannot read or write
/// is refused with the library's message.
pub fn rewrite_with_cover(
    track: &StoragePath,
    audio_bytes: &[u8],
    cover_bytes: &[u8],
    mime: &CoverMime,
    max_bytes: u64,
) -> (r: Result<Vec<u8>, ApiError>)
    ensures
        audio_bytes.len() > max_bytes ==> (r matches Err(e) && is_message(
            e,
            too_large_text(track@, audio_bytes.len() as nat, max_bytes as nat, false),
        )),
        r matches Ok(v) ==> audio_bytes.len() <= max_bytes && v.len() <= max_bytes,
        (audio_bytes.len() <= max_bytes && probe_failure(audio_bytes@) is Some) ==> (r matches Err(e)
            && e is Message && e->Message_0@ == tag_failure_text(
            "read"@,
            track@,
            probe_failure(audio_bytes@)->0,
        )),
        (audio_bytes.len() <= max_bytes && probe_failure(audio_bytes@) is None && r is Err) ==> (r matches Err(
            e,
        ) && e is Message && ((exists|d: Seq<char>|
            e->Message_0@ == tag_failure_text("embed cover"@, track@, d)) || (exists|n: nat|
            n > max_bytes && e->Message_0@ == too_large_text(track@, n, max_bytes as nat, true)))),
{
    let len: u64 = audio_bytes.len() as u64;
    match check_embed_size(track, len, max_bytes) {
        Ok(()) => {},
        Err(e) => return Err(e),
    }
    let embed_bytes = optimize_cover_for_embed(cover_bytes);
    let embed_as = embed_mime(&embed_bytes, mime);
    let mut tagged = match probe_tagged_bytes(audio_bytes) {
        Ok(t) => t,
        Err(detail) => {
            let e = tag_failure("read", track, detail);
            return Err(e);
        },
    };
    set_front_cover(&mut tagged, &embed_as, embed_bytes.into_owned());
    let saved = save_tagged_bytes(&tagged, audio_bytes);
    let ghost gs = saved;
    let r = finish_cover_rewrite(track, saved, max_bytes);
    proof {
        match gs {
            Ok(v) => if v.len() > max_bytes {
                assert(exists|n: nat| n > max_bytes && r->Err_0->Message_0@ == too_large_text(track@, n, max_bytes as nat, true)) by {
                    assert(v.len() as nat > max_bytes);
                }
            },
            Err(d) => {
                assert(exists|x: Seq<char>| r->Err_0->Message_0@ == tag_failure_text("embed cover"@, track@, x)) by {
                    assert(r->Err_0->Message_0@ == tag_failure_text("embed cover"@, track@, d@));
                }
            },
        }
    }
    r
}

/// What a cover rewrite answers once the tag library has written the
/// track: the rewritten bytes when they are within the size limit, the
/// size error when they are not, and the tag library's message when the
/// write failed.
pub fn finish_cover_rewrite(track: &StoragePath, saved: Result<Vec<u8>, String>, max_bytes: u64) -> (r: Result<
    Vec<u8>,
    ApiError,
>)
    ensures
        match saved {
            Ok(v) => if v.len() <= max_bytes {
                r matches Ok(w) && w@ == v@
            } else {
                r matches Err(e) && is_message(e, too_large_text(track@, v.len() as nat, max_bytes as nat, true))
            },
            Err(d) => r matches Err(e) && e is Message && e->Message_0@ == tag_failure_text(
                "embed cover"@,
                track@,
                d@,
            ),
        },
{
    match saved {
        Ok(v) => {
            let new_len: u64 = v.len() as u64;
            if new_len > max_bytes {
                Err(too_large_error(track, new_len, max_bytes, true))
            } else {
                Ok(v)
            }
        },
        Err(detail) => Err(tag_failure("embed cover", track, detail)),
    }
}

} // verus!
