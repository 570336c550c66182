//! Album covers: what kind of image a cover is, which files in an album
//! directory count as its cover, and which paths may be served.

use vstd::prelude::*;

use crate::error::{is_message, ApiError};
use crate::library::storage::{
    file_name_spec, storage_error_matches, storage_parse_spec, StorageEntry, StorageEntryKind,
    StoragePath,
};
use crate::order::{compare_chars, compare_text, lemma_compare_text_flip, lemma_compare_text_trans, Comparison};
use crate::fspath::{extension, extension_exec, extension_lower, extension_lower_exec};
use crate::text::{
    ascii_lower, ascii_lower_chars, chars_is, chars_of, contains_char, eq_ignore_case, find_char,
    is_ws,
    seq_equal, split_char, split_char_exec, starts_with, starts_with_lit, str_to_string,
    string_of, trim, trim_chars, trim_start_char, unicode_lower,
};

verus! {

/// Maximum uploaded album cover size (20 MiB).
pub const MAX_ALBUM_COVER_BYTES: usize = 20971520;

/// Max embedded cover file size.
pub const EMBED_MAX_COVER_BYTES: usize = 2097152;

/// Max width/height for an embedded cover.
pub const EMBED_MAX_COVER_DIMENSION: u32 = 1600;

/// The image type of a cover, as the tag library names picture types.
#[derive(Debug, Clone, PartialEq, Eq)]
pub enum CoverMime {
    Png,
    Jpeg,
    Tiff,
    Bmp,
    Gif,
    Unknown(String),
}

/// A cover type with its text taken as characters.
pub enum MimeView {
    Png,
    Jpeg,
    Tiff,
    Bmp,
    Gif,
    Unknown(Seq<char>),
}

pub open spec fn mime_view(m: CoverMime) -> MimeView {
    match m {
        CoverMime::Png => MimeView::Png,
        CoverMime::Jpeg => MimeView::Jpeg,
        CoverMime::Tiff => MimeView::Tiff,
        CoverMime::Bmp => MimeView::Bmp,
        CoverMime::Gif => MimeView::Gif,
        CoverMime::Unknown(s) => MimeView::Unknown(s@),
    }
}

/// `lofty::picture::MimeType::from_str`: the known types by their
/// lower-cased name (`image/jpg` read as JPEG), anything else kept as given.
pub open spec fn mime_from_str_spec(s: Seq<char>) -> MimeView {
    let l = unicode_lower(s);
    if l == "image/jpeg"@ || l == "image/jpg"@ {
        MimeView::Jpeg
    } else if l == "image/png"@ {
        MimeView::Png
    } else if l == "image/tiff"@ {
        MimeView::Tiff
    } else if l == "image/bmp"@ {
        MimeView::Bmp
    } else if l == "image/gif"@ {
        MimeView::Gif
    } else {
        MimeView::Unknown(s)
    }
}

/// `lofty::picture::MimeType::from_str`, its result converted variant by
/// variant. The contract states the match that its source makes on the
/// lower-cased input.
#[verifier::external_body]
fn lofty_mime_from_str(s: &str) -> (r: CoverMime)
    ensures
        mime_view(r) == mime_from_str_spec(s@),
{
    match lofty::picture::MimeType::from_str(s) {
        lofty::picture::MimeType::Png => CoverMime::Png,
        lofty::picture::MimeType::Jpeg => CoverMime::Jpeg,
        lofty::picture::MimeType::Tiff => CoverMime::Tiff,
        lofty::picture::MimeType::Bmp => CoverMime::Bmp,
        lofty::picture::MimeType::Gif => CoverMime::Gif,
        lofty::picture::MimeType::Unknown(u) => CoverMime::Unknown(u),
        _ => CoverMime::Unknown(s.to_owned()),
    }
}

/// The media type of a `Content-Type` value: the part before any `;`,
/// trimmed and ASCII lower-cased.
pub open spec fn primary_mime_spec(raw: Seq<char>) -> Seq<char> {
    ascii_lower(trim(split_char(raw, ';')[0]))
}

pub fn primary_mime_from_header(raw: &str) -> (r: String)
    ensures
        r@ == primary_mime_spec(raw@),
{
    let v = chars_of(raw);
    let parts = split_char_exec(v.as_slice(), ';');
    proof {
        assert(split_char(v@, ';').len() >= 1);
        assert(crate::text::deep(parts@).len() == parts@.len());
    }
    let t = trim_chars(parts[0].as_slice());
    let l = ascii_lower_chars(t.as_slice());
    string_of(l.as_slice())
}

/// The image type the leading bytes of a file announce, if any: JPEG, PNG,
/// WebP (as an unknown type), GIF or BMP.
pub open spec fn magic_mime(b: Seq<u8>) -> Option<MimeView> {
    if b.len() >= 3 && b[0] == 0xffu8 && b[1] == 0xd8u8 && b[2] == 0xffu8 {
        Some(MimeView::Jpeg)
    } else if b.len() >= 8 && b.take(8) == seq![0x89u8, 0x50u8, 0x4eu8, 0x47u8, 0x0du8, 0x0au8, 0x1au8, 0x0au8] {
        Some(MimeView::Png)
    } else if b.len() >= 12 && b.take(4) == seq![0x52u8, 0x49u8, 0x46u8, 0x46u8]
        && b.subrange(8, 12) == seq![0x57u8, 0x45u8, 0x42u8, 0x50u8] {
        Some(MimeView::Unknown("image/webp"@))
    } else if b.len() >= 6 && (b.take(6) == seq![0x47u8, 0x49u8, 0x46u8, 0x38u8, 0x37u8, 0x61u8]
        || b.take(6) == seq![0x47u8, 0x49u8, 0x46u8, 0x38u8, 0x39u8, 0x61u8]) {
        Some(MimeView::Gif)
    } else if b.len() >= 2 && b[0] == 0x42u8 && b[1] == 0x4du8 {
        Some(MimeView::Bmp)
    } else {
        None
    }
}

/// The type of an uploaded or downloaded cover: from a non-blank
/// `Content-Type` when the tag library knows it (or it is WebP), else from
/// the leading bytes, else JPEG.
pub open spec fn detect_mime_spec(content_type: Option<Seq<char>>, bytes: Seq<u8>) -> MimeView {
    let from_header = match content_type {
        Some(ct) => if trim(ct).len() > 0 {
            let primary = primary_mime_spec(trim(ct));
            match mime_from_str_spec(primary) {
                MimeView::Unknown(_) => if primary == "image/webp"@ {
                    Some(MimeView::Unknown("image/webp"@))
                } else {
                    None
                },
                m => Some(m),
            }
        } else {
            None
        },
        None => None,
    };
    match from_header {
        Some(m) => m,
        None => match magic_mime(bytes) {
            Some(m) => m,
            None => MimeView::Jpeg,
        },
    }
}

fn bytes_are(b: &[u8], lo: usize, lit: &[u8]) -> (r: bool)
    requires
        lo + lit@.len() <= b@.len(),
    ensures
        r == (b@.subrange(lo as int, lo + lit@.len()) == lit@),
{
    let mut i: usize = 0;
    while i < lit.len()
        invariant
            i <= lit@.len(),
            lo + lit@.len() <= b@.len(),
            lo + lit.len() <= b.len(),
            forall|j: int| 0 <= j < i ==> b@[lo + j] == lit@[j],
        decreases lit.len() - i,
    {
        if b[lo + i] != lit[i] {
            assert(b@.subrange(lo as int, lo + lit@.len())[i as int] != lit@[i as int]);
            return false;
        }
        i += 1;
    }
    assert(b@.subrange(lo as int, lo + lit@.len()) =~= lit@);
    true
}

fn magic_mime_exec(bytes: &[u8]) -> (r: Option<CoverMime>)
    ensures
        match magic_mime(bytes@) {
            Some(m) => r matches Some(x) && mime_view(x) == m,
            None => r is None,
        },
{
    let n = bytes.len();
    if n >= 3 && bytes[0] == 0xffu8 && bytes[1] == 0xd8u8 && bytes[2] == 0xffu8 {
        return Some(CoverMime::Jpeg);
    }
    let png: [u8; 8] = [0x89u8, 0x50u8, 0x4eu8, 0x47u8, 0x0du8, 0x0au8, 0x1au8, 0x0au8];
    assert(png@ =~= seq![0x89u8, 0x50u8, 0x4eu8, 0x47u8, 0x0du8, 0x0au8, 0x1au8, 0x0au8]);
    if n >= 8 && bytes_are(bytes, 0, png.as_slice()) {
        assert(bytes@.subrange(0, 8) =~= bytes@.take(8));
        return Some(CoverMime::Png);
    }
    proof {
        if n >= 8 {
            assert(bytes@.subrange(0, 8) =~= bytes@.take(8));
        }
    }
    let riff: [u8; 4] = [0x52u8, 0x49u8, 0x46u8, 0x46u8];
    let webp: [u8; 4] = [0x57u8, 0x45u8, 0x42u8, 0x50u8];
    assert(riff@ =~= seq![0x52u8, 0x49u8, 0x46u8, 0x46u8]);
    assert(webp@ =~= seq![0x57u8, 0x45u8, 0x42u8, 0x50u8]);
    if n >= 12 && bytes_are(bytes, 0, riff.as_slice()) && bytes_are(bytes, 8, webp.as_slice()) {
        assert(bytes@.subrange(0, 4) =~= bytes@.take(4));
        return Some(CoverMime::Unknown(str_to_string("image/webp")));
    }
    proof {
        if n >= 12 {
            assert(bytes@.subrange(0, 4) =~= bytes@.take(4));
        }
    }
    let gif7: [u8; 6] = [0x47u8, 0x49u8, 0x46u8, 0x38u8, 0x37u8, 0x61u8];
    let gif9: [u8; 6] = [0x47u8, 0x49u8, 0x46u8, 0x38u8, 0x39u8, 0x61u8];
    assert(gif7@ =~= seq![0x47u8, 0x49u8, 0x46u8, 0x38u8, 0x37u8, 0x61u8]);
    assert(gif9@ =~= seq![0x47u8, 0x49u8, 0x46u8, 0x38u8, 0x39u8, 0x61u8]);
    if n >= 6 && (bytes_are(bytes, 0, gif7.as_slice()) || bytes_are(bytes, 0, gif9.as_slice())) {
        assert(bytes@.subrange(0, 6) =~= bytes@.take(6));
        return Some(CoverMime::Gif);
    }
    proof {
        if n >= 6 {
            assert(bytes@.subrange(0, 6) =~= bytes@.take(6));
        }
    }
    if n >= 2 && bytes[0] == 0x42u8 && bytes[1] == 0x4du8 {
        return Some(CoverMime::Bmp);
    }
    None
}

/// Prefer HTTP `Content-Type`, then magic bytes; JPEG if neither tells.
pub fn detect_cover_mime_type(content_type: Option<&str>, bytes: &[u8]) -> (r: CoverMime)
    ensures
        mime_view(r) == detect_mime_spec(
            match content_type {
                Some(c) => Some(c@),
                None => None,
            },
            bytes@,
        ),
{
    if let Some(ct) = content_type {
        let cv = chars_of(ct);
        let t = trim_chars(cv.as_slice());
        if t.len() > 0 {
            let ts = string_of(t.as_slice());
            let primary = primary_mime_from_header(ts.as_str());
            let m = lofty_mime_from_str(primary.as_str());
            match m {
                CoverMime::Unknown(_) => {
                    if crate::text::str_is(primary.as_str(), "image/webp") {
                        return CoverMime::Unknown(str_to_string("image/webp"));
                    }
                },
                _ => {
                    return m;
                },
            }
        }
    }
    match magic_mime_exec(bytes) {
        Some(m) => m,
        None => CoverMime::Jpeg,
    }
}

/// The media types a cover upload may declare.
pub open spec fn upload_type_ok(primary: Seq<char>) -> bool {
    primary == "image/jpeg"@ || primary == "image/jpg"@ || primary == "image/png"@ || primary
        == "image/webp"@ || primary == "image/bmp"@
}

/// A declared upload type is accepted when blank or one of JPEG, PNG, WebP
/// and BMP.
pub fn validate_upload_content_type_header(content_type: Option<&str>) -> (r: Result<(), ApiError>)
    ensures
        match content_type {
            Some(c) => if trim(c@).len() > 0 && !upload_type_ok(primary_mime_spec(trim(c@))) {
                r matches Err(e) && is_message(e, "unsupported cover image type"@)
            } else {
                r is Ok
            },
            None => r is Ok,
        },
{
    let ct = match content_type {
        Some(c) => c,
        None => {
            return Ok(());
        },
    };
    let cv = chars_of(ct);
    let t = trim_chars(cv.as_slice());
    if t.len() == 0 {
        return Ok(());
    }
    let ts = string_of(t.as_slice());
    let p = primary_mime_from_header(ts.as_str());
    let ps = p.as_str();
    if crate::text::str_is(ps, "image/jpeg") || crate::text::str_is(ps, "image/jpg")
        || crate::text::str_is(ps, "image/png") || crate::text::str_is(ps, "image/webp")
        || crate::text::str_is(ps, "image/bmp") {
        Ok(())
    } else {
        Err(ApiError::bad_request("unsupported cover image type"))
    }
}

pub open spec fn is_webp(m: MimeView) -> bool {
    m matches MimeView::Unknown(s) && eq_ignore_case(s, "image/webp"@)
}

pub open spec fn upload_mime_ok(m: MimeView) -> bool {
    match m {
        MimeView::Jpeg | MimeView::Png | MimeView::Bmp => true,
        _ => is_webp(m),
    }
}

/// Cover types accepted for upload: JPEG, PNG, BMP and WebP (no GIF).
pub fn is_allowed_upload_cover_mime(mime: &CoverMime) -> (r: bool)
    ensures
        r == upload_mime_ok(mime_view(*mime)),
{
    match mime {
        CoverMime::Jpeg | CoverMime::Png | CoverMime::Bmp => true,
        CoverMime::Unknown(s) => crate::text::eq_ignore_case_str(s.as_str(), "image/webp"),
        _ => false,
    }
}

/// The file extension a cover of this type is saved with.
pub open spec fn cover_extension_spec(m: MimeView) -> Seq<char> {
    match m {
        MimeView::Jpeg => "jpg"@,
        MimeView::Png => "png"@,
        MimeView::Gif => "gif"@,
        MimeView::Tiff => "tif"@,
        MimeView::Bmp => "bmp"@,
        MimeView::Unknown(s) => if eq_ignore_case(s, "image/webp"@) {
            "webp"@
        } else {
            "jpg"@
        },
    }
}

pub fn cover_file_extension(mime: &CoverMime) -> (r: &'static str)
    ensures
        r@ == cover_extension_spec(mime_view(*mime)),
{
    match mime {
        CoverMime::Jpeg => "jpg",
        CoverMime::Png => "png",
        CoverMime::Gif => "gif",
        CoverMime::Tiff => "tif",
        CoverMime::Bmp => "bmp",
        CoverMime::Unknown(s) => {
            if crate::text::eq_ignore_case_str(s.as_str(), "image/webp") {
                "webp"
            } else {
                "jpg"
            }
        },
    }
}

/// The content type a cover file is served with, by its extension.
pub open spec fn image_content_type_spec(path: Seq<char>) -> Seq<char> {
    match extension_lower(path) {
        Some(e) => if e == "png"@ {
            "image/png"@
        } else if e == "jpg"@ || e == "jpeg"@ {
            "image/jpeg"@
        } else if e == "webp"@ {
            "image/webp"@
        } else if e == "bmp"@ {
            "image/bmp"@
        } else {
            "application/octet-stream"@
        },
        None => "application/octet-stream"@,
    }
}

pub fn image_content_type(path: &str) -> (r: &'static str)
    ensures
        r@ == image_content_type_spec(path@),
{
    let v = chars_of(path);
    match extension_lower_exec(v.as_slice()) {
        Some(e) => {
            let s = e.as_slice();
            if chars_is(s, "png") {
                "image/png"
            } else if chars_is(s, "jpg") || chars_is(s, "jpeg") {
                "image/jpeg"
            } else if chars_is(s, "webp") {
                "image/webp"
            } else if chars_is(s, "bmp") {
                "image/bmp"
            } else {
                "application/octet-stream"
            }
        },
        None => "application/octet-stream",
    }
}

pub open spec fn image_ext_ok(e: Seq<char>) -> bool {
    e == "jpg"@ || e == "jpeg"@ || e == "png"@ || e == "gif"@ || e == "webp"@ || e == "bmp"@
}

/// `folder.jpg` or `cover.<image extension>`, in any ASCII case.
pub open spec fn is_album_cover_filename_spec(name: Seq<char>) -> bool {
    let lower = ascii_lower(name);
    lower == "folder.jpg"@ || (starts_with(lower, "cover."@) && image_ext_ok(lower.skip(6)))
}

fn image_ext_ok_exec(e: &[char]) -> (r: bool)
    ensures
        r == image_ext_ok(e@),
{
    chars_is(e, "jpg") || chars_is(e, "jpeg") || chars_is(e, "png") || chars_is(e, "gif")
        || chars_is(e, "webp") || chars_is(e, "bmp")
}

pub fn is_album_cover_filename(name: &str) -> (r: bool)
    ensures
        r == is_album_cover_filename_spec(name@),
{
    let v = chars_of(name);
    let lower = ascii_lower_chars(v.as_slice());
    if chars_is(lower.as_slice(), "folder.jpg") {
        return true;
    }
    if starts_with_lit(lower.as_slice(), "cover.") {
        proof {
            reveal_strlit("cover.");
        }
        let ext = crate::text::slice_of(lower.as_slice(), 6, lower.len());
        assert(ext@ =~= lower@.skip(6));
        return image_ext_ok_exec(ext.as_slice());
    }
    false
}

/// The extension (as written) of a file that may hold a cover image.
pub open spec fn cover_candidate_ext_spec(name: Seq<char>) -> Option<Seq<char>> {
    match extension(name) {
        Some(e) => if image_ext_ok(ascii_lower(e)) {
            Some(e)
        } else {
            None
        },
        None => None,
    }
}

pub fn cover_candidate_ext(name: &str) -> (r: Option<String>)
    ensures
        match cover_candidate_ext_spec(name@) {
            Some(e) => r matches Some(x) && x@ == e,
            None => r is None,
        },
{
    let v = chars_of(name);
    match extension_exec(v.as_slice()) {
        Some(e) => {
            let l = ascii_lower_chars(e.as_slice());
            if image_ext_ok_exec(l.as_slice()) {
                Some(string_of(e.as_slice()))
            } else {
                None
            }
        },
        None => None,
    }
}

/// Files whose extension marks an image storage listings serve as covers.
pub open spec fn storage_cover_ext_ok(name: Seq<char>) -> bool {
    match extension_lower(name) {
        Some(e) => e == "jpg"@ || e == "jpeg"@ || e == "png"@ || e == "webp"@ || e == "bmp"@,
        None => false,
    }
}

pub fn is_supported_storage_cover_ext(name: &str) -> (r: bool)
    ensures
        r == storage_cover_ext_ok(name@),
{
    let v = chars_of(name);
    match extension_lower_exec(v.as_slice()) {
        Some(e) => {
            let s = e.as_slice();
            chars_is(s, "jpg") || chars_is(s, "jpeg") || chars_is(s, "png") || chars_is(s, "webp")
                || chars_is(s, "bmp")
        },
        None => false,
    }
}

/// What `resolve_library_relative_file` checks before touching the disk: the
/// path trimmed of blanks; refused as missing when empty, as invalid when it
/// holds `\`, an empty component (so also when it is absolute, starting
/// with `/`) or `..`.
pub open spec fn library_relative_spec(rel: Seq<char>) -> Result<Seq<char>, Seq<char>> {
    let r = trim(rel);
    if r.len() == 0 {
        Err("cover file not found"@)
    } else if r.contains('\\') || exists|i: int|
        0 <= i < split_char(r, '/').len() && (split_char(r, '/')[i] == seq!['.', '.']
            || split_char(r, '/')[i].len() == 0) {
        Err("invalid library path"@)
    } else {
        Ok(r)
    }
}

/// The library-relative file a request names, checked as
/// `library_relative_spec` says: absolute paths, backslashes, empty
/// components and `..` are refused. `contained_cover_file` then checks the
/// file it resolves to under the library root.
pub fn resolve_library_relative_file(rel: &str) -> (r: Result<String, ApiError>)
    ensures
        match library_relative_spec(rel@) {
            Ok(p) => r matches Ok(s) && s@ == p,
            Err(m) => r matches Err(e) && is_message(e, m),
        },
{
    let v = chars_of(rel);
    let r = trim_chars(v.as_slice());
    if r.len() == 0 {
        return Err(ApiError::Message(str_to_string("cover file not found")));
    }
    if contains_char(r.as_slice(), '\\') {
        return Err(ApiError::bad_request("invalid library path"));
    }
    let parts = split_char_exec(r.as_slice(), '/');
    let mut i: usize = 0;
    while i < parts.len()
        invariant
            i <= parts.len(),
            crate::text::deep(parts@) == split_char(r@, '/'),
            r@ == trim(rel@),
            r@.len() > 0,
            !r@.contains('\\'),
            forall|j: int|
                0 <= j < i ==> split_char(r@, '/')[j] != seq!['.', '.'] && split_char(
                    r@,
                    '/',
                )[j].len() != 0,
        decreases parts.len() - i,
    {
        assert(crate::text::deep(parts@)[i as int] == parts@[i as int]@);
        if parts[i].len() == 0 || crate::fspath::is_parent_dir_exec(parts[i].as_slice()) {
            return Err(ApiError::bad_request("invalid library path"));
        }
        i += 1;
    }
    Ok(string_of(r.as_slice()))
}

/// Where a checked library-relative cover path resolves: `resolved` is the
/// canonical path of the file under the canonical library `root`, or `None`
/// when there is no regular file there (or it cannot be resolved). A file
/// that resolves outside the root is refused.
pub fn contained_cover_file(root: &str, resolved: Option<&str>) -> (r: Result<String, ApiError>)
    ensures
        resolved is None ==> (r matches Err(e) && is_message(e, "cover file not found"@)),
        resolved matches Some(p) ==> (crate::fspath::path_starts_with(p@, root@) ==> (r matches Ok(s)
            && s@ == p@)),
        resolved matches Some(p) ==> (!crate::fspath::path_starts_with(p@, root@) ==> (r matches Err(
            e,
        ) && is_message(e, "invalid library path"@))),
{
    match resolved {
        None => Err(ApiError::Message(str_to_string("cover file not found"))),
        Some(p) => if crate::fspath::path_starts_with_exec(chars_of(p).as_slice(), chars_of(root).as_slice()) {
            Ok(str_to_string(p))
        } else {
            Err(ApiError::bad_request("invalid library path"))
        },
    }
}

#[derive(Debug, Clone)]
pub struct WriteAlbumCoverResult {
    pub cover_path: String,
    pub tracks_embedded: u32,
}

/// What `char::is_alphanumeric` says of `c` (Unicode alphabetic or numeric).
pub uninterp spec fn unicode_alphanumeric(c: char) -> bool;

/// `char::is_alphanumeric`; the contract names its answer.
#[verifier::external_body]
fn is_alphanumeric(c: char) -> (r: bool)
    ensures
        r == unicode_alphanumeric(c),
{
    c.is_alphanumeric()
}

/// Index of the first character that is not alphanumeric.
pub open spec fn first_separator(s: Seq<char>) -> Option<int>
    decreases s.len(),
{
    if s.len() == 0 {
        None
    } else if !unicode_alphanumeric(s[0]) {
        Some(0)
    } else {
        match first_separator(s.drop_first()) {
            Some(i) => Some(i + 1),
            None => None,
        }
    }
}

pub proof fn lemma_first_separator_bounds(s: Seq<char>)
    ensures
        first_separator(s) matches Some(i) ==> 0 <= i < s.len() && !unicode_alphanumeric(s[i])
            && forall|j: int| 0 <= j < i ==> unicode_alphanumeric(#[trigger] s[j]),
        first_separator(s) is None ==> forall|j: int|
            0 <= j < s.len() ==> unicode_alphanumeric(#[trigger] s[j]),
    decreases s.len(),
{
    if s.len() > 0 {
        lemma_first_separator_bounds(s.drop_first());
        if unicode_alphanumeric(s[0]) {
            assert forall|j: int| 1 <= j < s.len() implies s[j] == s.drop_first()[j - 1] by {}
        }
    }
}

/// The pieces of `s` between characters that are not alphanumeric
/// (`str::split` with that predicate).
pub open spec fn alnum_pieces(s: Seq<char>) -> Seq<Seq<char>>
    decreases s.len(),
{
    match first_separator(s) {
        Some(i) => {
            proof {
                lemma_first_separator_bounds(s);
            }
            seq![s.subrange(0, i)] + alnum_pieces(s.subrange(i + 1, s.len() as int))
        },
        None => seq![s],
    }
}

/// A word kept for comparing names: trimmed, ASCII lower-cased, not empty
/// and not a four-digit year.
pub open spec fn name_token(piece: Seq<char>) -> Option<Seq<char>> {
    let t = ascii_lower(trim(piece));
    if t.len() == 0 || (t.len() == 4 && crate::text::all_digits(t)) {
        None
    } else {
        Some(t)
    }
}

pub open spec fn tokens_of_pieces(ps: Seq<Seq<char>>) -> Seq<Seq<char>>
    decreases ps.len(),
{
    if ps.len() == 0 {
        Seq::empty()
    } else {
        let rest = tokens_of_pieces(ps.drop_first());
        match name_token(ps[0]) {
            Some(t) => seq![t] + rest,
            None => rest,
        }
    }
}

/// The words of a file or album name: its stem split at characters that
/// are not alphanumeric, each kept as `name_token` says.
pub open spec fn cover_name_tokens_spec(value: Seq<char>) -> Seq<Seq<char>> {
    let stem = match crate::fspath::file_stem(value) {
        Some(s) => s,
        None => value,
    };
    tokens_of_pieces(alnum_pieces(stem))
}

fn alnum_pieces_exec(v: &[char]) -> (r: Vec<Vec<char>>)
    ensures
        crate::text::deep(r@) == alnum_pieces(v@),
{
    let mut out: Vec<Vec<char>> = Vec::new();
    let mut start: usize = 0;
    let mut i: usize = 0;
    assert(v@.subrange(0, v.len() as int) =~= v@);
    while i < v.len()
        invariant
            start <= i <= v.len(),
            alnum_pieces(v@) == crate::text::deep(out@) + alnum_pieces(
                v@.subrange(start as int, v.len() as int),
            ),
            forall|j: int| start <= j < i ==> unicode_alphanumeric(#[trigger] v@[j]),
        decreases v.len() - i,
    {
        if !is_alphanumeric(v[i]) {
            let piece = crate::text::slice_of(v, start, i);
            let ghost rest = v@.subrange(start as int, v.len() as int);
            proof {
                lemma_first_separator_bounds(rest);
                assert forall|j: int| 0 <= j < i - start implies unicode_alphanumeric(rest[j]) by {
                    assert(rest[j] == v@[start + j]);
                }
                assert(rest[i - start] == v@[i as int]);
                assert(first_separator(rest) == Some(i - start)) by {
                    lemma_first_separator_at(rest, i - start);
                }
                assert(rest.subrange(0, i - start) =~= piece@);
                assert(rest.subrange(i - start + 1, rest.len() as int) =~= v@.subrange(
                    i + 1,
                    v.len() as int,
                ));
            }
            let ghost before = out@;
            out.push(piece);
            proof {
                assert(crate::text::deep(out@) =~= crate::text::deep(before) + seq![
                    rest.subrange(0, i - start),
                ]);
            }
            start = i + 1;
        }
        i += 1;
    }
    let piece = crate::text::slice_of(v, start, v.len());
    let ghost rest = v@.subrange(start as int, v.len() as int);
    proof {
        lemma_first_separator_bounds(rest);
        assert forall|j: int| 0 <= j < rest.len() implies unicode_alphanumeric(rest[j]) by {
            assert(rest[j] == v@[start + j]);
        }
        if first_separator(rest) is Some {
            let k = first_separator(rest)->0;
            assert(unicode_alphanumeric(rest[k]));
        }
        assert(piece@ =~= rest);
    }
    let ghost before = out@;
    out.push(piece);
    proof {
        assert(crate::text::deep(out@) =~= crate::text::deep(before) + seq![rest]);
    }
    out
}

proof fn lemma_first_separator_at(s: Seq<char>, k: int)
    requires
        0 <= k < s.len(),
        !unicode_alphanumeric(s[k]),
        forall|j: int| 0 <= j < k ==> unicode_alphanumeric(#[trigger] s[j]),
    ensures
        first_separator(s) == Some(k),
    decreases k,
{
    if k > 0 {
        assert forall|j: int| 0 <= j < k - 1 implies unicode_alphanumeric(
            #[trigger] s.drop_first()[j],
        ) by {
            assert(s.drop_first()[j] == s[j + 1]);
        }
        lemma_first_separator_at(s.drop_first(), k - 1);
    }
}

fn name_token_exec(piece: &[char]) -> (r: Option<Vec<char>>)
    ensures
        match name_token(piece@) {
            Some(t) => r matches Some(x) && x@ == t,
            None => r is None,
        },
{
    let t = trim_chars(piece);
    let l = ascii_lower_chars(t.as_slice());
    if l.len() == 0 {
        return None;
    }
    if l.len() == 4 {
        let mut all = true;
        let mut i: usize = 0;
        while i < 4
            invariant
                i <= 4,
                l@.len() == 4,
                all == (forall|j: int| 0 <= j < i ==> crate::text::is_digit(#[trigger] l@[j])),
            decreases 4 - i,
        {
            if !crate::text::is_digit_char(l[i]) {
                all = false;
            }
            i += 1;
        }
        if all {
            return None;
        }
    }
    Some(l)
}

/// The words of a name (`normalized_cover_name_tokens`).
pub fn normalized_cover_name_tokens(value: &str) -> (r: Vec<String>)
    ensures
        r@.len() == cover_name_tokens_spec(value@).len(),
        forall|i: int| 0 <= i < r@.len() ==> (#[trigger] r@[i])@ == cover_name_tokens_spec(value@)[i],
{
    let v = chars_of(value);
    let stem = match crate::fspath::file_stem_exec(v.as_slice()) {
        Some(s) => s,
        None => v,
    };
    let pieces = alnum_pieces_exec(stem.as_slice());
    let ghost ps = crate::text::deep(pieces@);
    let mut out: Vec<String> = Vec::new();
    let mut k: usize = pieces.len();
    while k > 0
        invariant
            k <= pieces@.len(),
            ps == crate::text::deep(pieces@),
            ps == alnum_pieces(stem@),
            out@.len() == tokens_of_pieces(ps.skip(k as int)).len(),
            forall|i: int|
                0 <= i < out@.len() ==> (#[trigger] out@[i])@ == tokens_of_pieces(
                    ps.skip(k as int),
                )[out@.len() - 1 - i],
        decreases k,
    {
        k -= 1;
        assert(ps.skip(k as int).drop_first() =~= ps.skip(k as int + 1));
        assert(ps.skip(k as int)[0] == pieces@[k as int]@);
        if let Some(t) = name_token_exec(pieces[k].as_slice()) {
            out.push(string_of(t.as_slice()));
        }
    }
    assert(ps.skip(0) =~= ps);
    let mut r: Vec<String> = Vec::new();
    let n = out.len();
    let mut j: usize = 0;
    while j < n
        invariant
            j <= n,
            n == out@.len(),
            r@.len() == j,
            forall|i: int| 0 <= i < j ==> (#[trigger] r@[i])@ == out@[n - 1 - i]@,
        decreases n - j,
    {
        r.push(out[n - 1 - j].clone());
        j += 1;
    }
    r
}

/// Does the run of words `needle` occur in `words`?
pub open spec fn has_word_run(words: Seq<Seq<char>>, needle: Seq<Seq<char>>) -> bool {
    exists|i: int|
        0 <= i && i + needle.len() <= words.len() && #[trigger] words.subrange(i, i + needle.len())
            == needle
}

/// A file name mentions an album when the album title's words appear in it
/// consecutively; an album title without words matches nothing.
pub open spec fn mentions_album_spec(file_name: Seq<char>, album_title: Seq<char>) -> bool {
    let at = cover_name_tokens_spec(album_title);
    at.len() > 0 && has_word_run(cover_name_tokens_spec(file_name), at)
}

fn words_at(words: &Vec<String>, i: usize, needle: &Vec<String>) -> (r: bool)
    requires
        i + needle@.len() <= words@.len(),
    ensures
        r == (forall|k: int| 0 <= k < needle@.len() ==> words@[i + k]@ == (#[trigger] needle@[k])@),
{
    let mut k: usize = 0;
    while k < needle.len()
        invariant
            k <= needle@.len(),
            i + needle@.len() <= words@.len(),
            i + needle.len() <= words.len(),
            forall|m: int| 0 <= m < k ==> words@[i + m]@ == (#[trigger] needle@[m])@,
        decreases needle.len() - k,
    {
        if !crate::text::str_is(words[i + k].as_str(), needle[k].as_str()) {
            return false;
        }
        k += 1;
    }
    true
}

pub fn contains_album_title_tokens(file_name: &str, album_title: &str) -> (r: bool)
    ensures
        r == mentions_album_spec(file_name@, album_title@),
{
    let at = normalized_cover_name_tokens(album_title);
    let ghost ats = cover_name_tokens_spec(album_title@);
    let ghost fts = cover_name_tokens_spec(file_name@);
    if at.len() == 0 {
        return false;
    }
    let ft = normalized_cover_name_tokens(file_name);
    if at.len() > ft.len() {
        assert(!has_word_run(fts, ats));
        return false;
    }
    let mut i: usize = 0;
    let last = ft.len() - at.len();
    let mut found = false;
    while i <= last && !found
        invariant
            last == ft@.len() - at@.len(),
            at@.len() <= ft@.len(),
            at@.len() > 0,
            at@.len() == ats.len(),
            ft@.len() == fts.len(),
            forall|m: int| 0 <= m < at@.len() ==> (#[trigger] at@[m])@ == ats[m],
            forall|m: int| 0 <= m < ft@.len() ==> (#[trigger] ft@[m])@ == fts[m],
            found ==> has_word_run(fts, ats),
            !found ==> forall|j: int|
                0 <= j < i && j + ats.len() <= fts.len() ==> #[trigger] fts.subrange(
                    j,
                    j + ats.len(),
                ) != ats,
        decreases ft.len() + 1 - i, (if found { 0int } else { 1int }),
    {
        if words_at(&ft, i, &at) {
            assert forall|k: int| 0 <= k < ats.len() implies fts.subrange(i as int, i + ats.len())[k]
                == ats[k] by {
                assert(ft@[i + k]@ == at@[k]@);
            }
            assert(fts.subrange(i as int, i + ats.len()) =~= ats);
            assert(has_word_run(fts, ats));
            found = true;
        } else {
            assert(fts.subrange(i as int, i + ats.len()) != ats) by {
                let k = choose|k: int| 0 <= k < at@.len() && ft@[i + k]@ != (#[trigger] at@[k])@;
                assert(fts.subrange(i as int, i + ats.len())[k] == fts[i + k]);
            }
            i += 1;
        }
    }
    if found {
        return true;
    }
    assert forall|j: int| 0 <= j && j + ats.len() <= fts.len() implies #[trigger] fts.subrange(
        j,
        j + ats.len(),
    ) != ats by {}
    false
}

/// A push that keeps the sequence free of repeats.
pub open spec fn push_new(s: Seq<u64>, x: u64) -> Seq<u64> {
    if s.contains(x) {
        s
    } else {
        s.push(x)
    }
}

/// The Qobuz catalog ids to try when attaching a downloaded cover to an
/// album row: the download job's id, the album's catalog id, the album's
/// id, each once, in that order.
pub open spec fn cover_catalog_ids_spec(job_id: Option<u64>, catalog_id: Option<u64>, album_id: u64) -> Seq<u64> {
    let a = match job_id {
        Some(x) => push_new(Seq::empty(), x),
        None => Seq::empty(),
    };
    let b = match catalog_id {
        Some(x) => push_new(a, x),
        None => a,
    };
    push_new(b, album_id)
}

fn push_new_exec(v: &mut Vec<u64>, x: u64)
    ensures
        final(v)@ == push_new(old(v)@, x),
{
    let mut i: usize = 0;
    while i < v.len()
        invariant
            i <= v@.len(),
            forall|j: int| 0 <= j < i ==> v@[j] != x,
        decreases v.len() - i,
    {
        if v[i] == x {
            assert(v@.contains(x));
            return;
        }
        i += 1;
    }
    v.push(x);
}

pub fn qobuz_catalog_ids_for_cover(
    download_job_catalog_id: Option<u64>,
    album_catalog_id: Option<u64>,
    album_id: u64,
) -> (r: Vec<u64>)
    ensures
        r@ == cover_catalog_ids_spec(download_job_catalog_id, album_catalog_id, album_id),
{
    let mut out: Vec<u64> = Vec::new();
    if let Some(id) = download_job_catalog_id {
        push_new_exec(&mut out, id);
    }
    if let Some(id) = album_catalog_id {
        push_new_exec(&mut out, id);
    }
    push_new_exec(&mut out, album_id);
    out
}

/// A push through `push_new` leaves a sequence without repeats as one.
pub proof fn lemma_push_new_no_repeats(s: Seq<u64>, x: u64)
    requires
        s.no_duplicates(),
    ensures
        push_new(s, x).no_duplicates(),
        push_new(s, x).contains(x),
{
    if !s.contains(x) {
        assert(s.push(x)[s.len() as int] == x);
        assert forall|i: int, j: int| 0 <= i < j < s.len() + 1 implies s.push(x)[i] != s.push(
            x,
        )[j] by {
            if j == s.len() {
                assert(s.push(x)[i] == s[i]);
            }
        }
    }
}

/// The ids tried for a downloaded cover never repeat, and the album's id
/// is always among them.
pub proof fn lemma_cover_catalog_ids_distinct(job_id: Option<u64>, catalog_id: Option<u64>, album_id: u64)
    ensures
        cover_catalog_ids_spec(job_id, catalog_id, album_id).no_duplicates(),
        cover_catalog_ids_spec(job_id, catalog_id, album_id).contains(album_id),
{
    let e = Seq::<u64>::empty();
    let a = match job_id {
        Some(x) => push_new(e, x),
        None => e,
    };
    if let Some(x) = job_id {
        lemma_push_new_no_repeats(e, x);
    }
    let b = match catalog_id {
        Some(x) => push_new(a, x),
        None => a,
    };
    if let Some(x) = catalog_id {
        lemma_push_new_no_repeats(a, x);
    }
    lemma_push_new_no_repeats(b, album_id);
}

/// The cover image links of a Qobuz album.
#[derive(Debug, Clone)]
pub struct Image {
    pub large: Option<String>,
    pub thumbnail: Option<String>,
    pub small: Option<String>,
}

/// The link a cover is downloaded from: the large image, else the
/// thumbnail, else the small one, unless the chosen link is empty.
pub open spec fn cover_url_spec(image: Image) -> Option<Seq<char>> {
    let u = match image.large {
        Some(l) => Some(l@),
        None => match image.thumbnail {
            Some(t) => Some(t@),
            None => match image.small {
                Some(s) => Some(s@),
                None => None,
            },
        },
    };
    match u {
        Some(x) => if x.len() > 0 {
            Some(x)
        } else {
            None
        },
        None => None,
    }
}

pub fn cover_url(image: &Image) -> (r: Option<&str>)
    ensures
        match cover_url_spec(*image) {
            Some(u) => r matches Some(x) && x@ == u,
            None => r is None,
        },
{
    let u: Option<&str> = match &image.large {
        Some(l) => Some(l.as_str()),
        None => match &image.thumbnail {
            Some(t) => Some(t.as_str()),
            None => match &image.small {
                Some(s) => Some(s.as_str()),
                None => None,
            },
        },
    };
    match u {
        Some(x) => {
            if x.is_empty() {
                None
            } else {
                Some(x)
            }
        },
        None => None,
    }
}

/// Among the entries flagged in `mask`, entry `i` comes first once the
/// entries are sorted by name (stably: the earliest of equal names).
pub open spec fn first_by_name(names: Seq<Seq<char>>, mask: Seq<bool>, i: int) -> bool {
    &&& 0 <= i < names.len()
    &&& i < mask.len()
    &&& mask[i]
    &&& forall|j: int|
        0 <= j < names.len() && j < mask.len() && mask[j] ==> compare_text(names[i], #[trigger] names[j])
            != Comparison::Greater
    &&& forall|j: int|
        0 <= j < i && mask[j] ==> compare_text(#[trigger] names[j], names[i]) == Comparison::Greater
}

pub open spec fn any_set(mask: Seq<bool>) -> bool {
    exists|j: int| 0 <= j < mask.len() && #[trigger] mask[j]
}

/// The first flagged entry in name order, if any is flagged.
pub fn first_min_index(names: &Vec<Vec<char>>, mask: &Vec<bool>) -> (r: Option<usize>)
    requires
        names@.len() == mask@.len(),
    ensures
        match r {
            Some(i) => first_by_name(crate::text::deep(names@), mask@, i as int),
            None => !any_set(mask@),
        },
{
    let ghost ns = crate::text::deep(names@);
    let mut best: Option<usize> = None;
    let mut j: usize = 0;
    while j < names.len()
        invariant
            j <= names@.len(),
            names@.len() == mask@.len(),
            ns == crate::text::deep(names@),
            match best {
                Some(b) => b < j && first_by_name(ns.take(j as int), mask@.take(j as int), b as int),
                None => forall|k: int| 0 <= k < j ==> !mask@[k],
            },
        decreases names.len() - j,
    {
        let ghost nj = ns.take(j + 1);
        let ghost mj = mask@.take(j + 1);
        assert(ns[j as int] == names@[j as int]@);
        if mask[j] {
            match best {
                None => {
                    best = Some(j);
                    assert forall|k: int| 0 <= k < nj.len() && k < mj.len() && mj[k] implies compare_text(
                        nj[j as int],
                        #[trigger] nj[k],
                    ) != Comparison::Greater by {
                        assert(k == j);
                        crate::order::lemma_compare_text_equal(nj[k], nj[k]);
                    }
                },
                Some(b) => {
                    let c = compare_chars(names[j].as_slice(), names[b].as_slice());
                    assert(ns[b as int] == names@[b as int]@);
                    if c == Comparison::Less {
                        best = Some(j);
                        assert forall|k: int| 0 <= k < nj.len() && k < mj.len() && mj[k] implies compare_text(
                            nj[j as int],
                            #[trigger] nj[k],
                        ) != Comparison::Greater by {
                            if k < j {
                                assert(ns.take(j as int)[k] == ns[k]);
                                assert(ns.take(j as int)[b as int] == ns[b as int]);
                                lemma_compare_text_trans(ns[j as int], ns[b as int], ns[k]);
                            } else {
                                crate::order::lemma_compare_text_equal(nj[k], nj[k]);
                            }
                        }
                        assert forall|k: int| 0 <= k < j && mj[k] implies compare_text(
                            #[trigger] nj[k],
                            nj[j as int],
                        ) == Comparison::Greater by {
                            assert(ns.take(j as int)[k] == ns[k]);
                            assert(ns.take(j as int)[b as int] == ns[b as int]);
                            lemma_compare_text_trans(ns[j as int], ns[b as int], ns[k]);
                            lemma_compare_text_flip(ns[j as int], ns[k]);
                        }
                    } else {
                        proof {
                            lemma_compare_text_flip(ns[j as int], ns[b as int]);
                        }
                        assert forall|k: int| 0 <= k < nj.len() && k < mj.len() && mj[k] implies compare_text(
                            nj[b as int],
                            #[trigger] nj[k],
                        ) != Comparison::Greater by {
                            if k < j {
                                assert(ns.take(j as int)[k] == ns[k]);
                                assert(mask@.take(j as int)[k] == mask@[k]);
                            }
                        }
                        assert forall|k: int| 0 <= k < b && mj[k] implies compare_text(
                            #[trigger] nj[k],
                            nj[b as int],
                        ) == Comparison::Greater by {
                            assert(ns.take(j as int)[k] == ns[k]);
                            assert(mask@.take(j as int)[k] == mask@[k]);
                        }
                    }
                },
            }
        } else {
            match best {
                Some(b) => {
                    assert forall|k: int| 0 <= k < nj.len() && k < mj.len() && mj[k] implies compare_text(
                        nj[b as int],
                        #[trigger] nj[k],
                    ) != Comparison::Greater by {
                        assert(ns.take(j as int)[k] == ns[k]);
                        assert(mask@.take(j as int)[k] == mask@[k]);
                    }
                    assert forall|k: int| 0 <= k < b && mj[k] implies compare_text(
                        #[trigger] nj[k],
                        nj[b as int],
                    ) == Comparison::Greater by {
                        assert(ns.take(j as int)[k] == ns[k]);
                        assert(mask@.take(j as int)[k] == mask@[k]);
                    }
                },
                None => {},
            }
        }
        j += 1;
    }
    assert(ns.take(j as int) =~= ns);
    assert(mask@.take(j as int) =~= mask@);
    best
}

/// A listed file that may be served as a cover.
pub open spec fn cover_file(e: StorageEntry) -> bool {
    e.kind == StorageEntryKind::File && storage_cover_ext_ok(e.name@)
}

pub open spec fn entry_names(es: Seq<StorageEntry>) -> Seq<Seq<char>> {
    es.map_values(|e: StorageEntry| e.name@)
}

/// Cover files named `lit` (in any ASCII case).
pub open spec fn named_mask(es: Seq<StorageEntry>, lit: Seq<char>) -> Seq<bool> {
    es.map_values(|e: StorageEntry| cover_file(e) && eq_ignore_case(e.name@, lit))
}

/// Cover files whose name mentions the album title.
pub open spec fn titled_mask(es: Seq<StorageEntry>, title: Seq<char>) -> Seq<bool> {
    es.map_values(|e: StorageEntry| cover_file(e) && mentions_album_spec(e.name@, title))
}

pub open spec fn file_mask(es: Seq<StorageEntry>) -> Seq<bool> {
    es.map_values(|e: StorageEntry| cover_file(e))
}

/// The cover names tried first, in order of preference.
pub open spec fn preferred_cover_name(k: int) -> Seq<char> {
    if k == 0 {
        "cover.jpg"@
    } else if k == 1 {
        "cover.jpeg"@
    } else if k == 2 {
        "cover.png"@
    } else if k == 3 {
        "cover.webp"@
    } else {
        "cover.bmp"@
    }
}

/// Which listed entry is an album's cover, from preference `k` on: the
/// first (by name) cover file with the `k`-th preferred name, else later
/// preferences; then the first cover file mentioning the album title; then
/// the first cover file.
pub open spec fn cover_choice_from(es: Seq<StorageEntry>, title: Seq<char>, k: int, i: int) -> bool
    decreases 5 - k,
{
    if k < 5 {
        if any_set(named_mask(es, preferred_cover_name(k))) {
            first_by_name(entry_names(es), named_mask(es, preferred_cover_name(k)), i)
        } else {
            cover_choice_from(es, title, k + 1, i)
        }
    } else if any_set(titled_mask(es, title)) {
        first_by_name(entry_names(es), titled_mask(es, title), i)
    } else {
        first_by_name(entry_names(es), file_mask(es), i)
    }
}

/// The title an album directory is matched by: its last component, or the
/// whole path.
pub open spec fn album_title_of(album: Seq<char>) -> Seq<char> {
    match file_name_spec(album) {
        Some(n) => n,
        None => album,
    }
}

fn is_cover_file(e: &StorageEntry) -> (r: bool)
    ensures
        r == cover_file(*e),
{
    match e.kind {
        StorageEntryKind::File => is_supported_storage_cover_ext(e.name.as_str()),
        StorageEntryKind::Directory => false,
    }
}

fn entry_name_chars(entries: &[StorageEntry]) -> (r: Vec<Vec<char>>)
    ensures
        crate::text::deep(r@) == entry_names(entries@),
{
    let mut out: Vec<Vec<char>> = Vec::new();
    let mut i: usize = 0;
    while i < entries.len()
        invariant
            i <= entries@.len(),
            crate::text::deep(out@) == entry_names(entries@.take(i as int)),
        decreases entries.len() - i,
    {
        let ghost before = out@;
        out.push(chars_of(entries[i].name.as_str()));
        proof {
            assert(crate::text::deep(out@) =~= crate::text::deep(before).push(entries@[i as int].name@));
            assert(entry_names(entries@.take(i + 1)) =~= entry_names(entries@.take(i as int)).push(
                entries@[i as int].name@,
            ));
        }
        i += 1;
    }
    assert(entries@.take(i as int) =~= entries@);
    out
}

fn named_mask_exec(entries: &[StorageEntry], lit: &str) -> (r: Vec<bool>)
    ensures
        r@ == named_mask(entries@, lit@),
{
    let mut out: Vec<bool> = Vec::new();
    let mut i: usize = 0;
    while i < entries.len()
        invariant
            i <= entries@.len(),
            out@ == named_mask(entries@.take(i as int), lit@),
        decreases entries.len() - i,
    {
        let b = is_cover_file(&entries[i]) && crate::text::eq_ignore_case_str(
            entries[i].name.as_str(),
            lit,
        );
        out.push(b);
        assert(named_mask(entries@.take(i + 1), lit@) =~= named_mask(entries@.take(i as int), lit@).push(b));
        i += 1;
    }
    assert(entries@.take(i as int) =~= entries@);
    out
}

fn titled_mask_exec(entries: &[StorageEntry], title: &str) -> (r: Vec<bool>)
    ensures
        r@ == titled_mask(entries@, title@),
{
    let mut out: Vec<bool> = Vec::new();
    let mut i: usize = 0;
    while i < entries.len()
        invariant
            i <= entries@.len(),
            out@ == titled_mask(entries@.take(i as int), title@),
        decreases entries.len() - i,
    {
        let b = is_cover_file(&entries[i]) && contains_album_title_tokens(
            entries[i].name.as_str(),
            title,
        );
        out.push(b);
        assert(titled_mask(entries@.take(i + 1), title@) =~= titled_mask(entries@.take(i as int), title@).push(b));
        i += 1;
    }
    assert(entries@.take(i as int) =~= entries@);
    out
}

fn file_mask_exec(entries: &[StorageEntry]) -> (r: Vec<bool>)
    ensures
        r@ == file_mask(entries@),
{
    let mut out: Vec<bool> = Vec::new();
    let mut i: usize = 0;
    while i < entries.len()
        invariant
            i <= entries@.len(),
            out@ == file_mask(entries@.take(i as int)),
        decreases entries.len() - i,
    {
        let b = is_cover_file(&entries[i]);
        out.push(b);
        assert(file_mask(entries@.take(i + 1)) =~= file_mask(entries@.take(i as int)).push(b));
        i += 1;
    }
    assert(entries@.take(i as int) =~= entries@);
    out
}

fn preferred_cover_name_exec(k: usize) -> (r: &'static str)
    requires
        k < 5,
    ensures
        r@ == preferred_cover_name(k as int),
{
    if k == 0 {
        "cover.jpg"
    } else if k == 1 {
        "cover.jpeg"
    } else if k == 2 {
        "cover.png"
    } else if k == 3 {
        "cover.webp"
    } else {
        "cover.bmp"
    }
}

/// The cover of album directory `album` among its listed `entries`
/// (`discover_album_cover_rel_storage` once the directory is listed): the
/// chosen entry's path, as `cover_choice_from` says; nothing for the root.
pub fn choose_storage_cover(album: &StoragePath, entries: &[StorageEntry]) -> (r: Option<String>)
    ensures
        album@.len() == 0 ==> r is None,
        album@.len() > 0 ==> match r {
            Some(p) => exists|i: int|
                cover_choice_from(entries@, album_title_of(album@), 0, i) && p@
                    == entries@[i].path@,
            None => !any_set(file_mask(entries@)),
        },
{
    if album.is_root() {
        return None;
    }
    let names = entry_name_chars(entries);
    let ghost title = album_title_of(album@);
    assert(crate::text::deep(names@).len() == names@.len());
    assert(entry_names(entries@).len() == entries@.len());
    let mut k: usize = 0;
    while k < 5
        invariant
            k <= 5,
            crate::text::deep(names@) == entry_names(entries@),
            names@.len() == entries@.len(),
            album@.len() > 0,
            title == album_title_of(album@),
            forall|i: int| cover_choice_from(entries@, title, 0, i) == cover_choice_from(
                entries@,
                title,
                k as int,
                i,
            ),
        decreases 5 - k,
    {
        let lit = preferred_cover_name_exec(k);
        let mask = named_mask_exec(entries, lit);
        if let Some(i) = first_min_index(&names, &mask) {
            assert(cover_choice_from(entries@, title, k as int, i as int));
            assert(cover_choice_from(entries@, title, 0, i as int));
            return Some(str_to_string(entries[i].path.as_str()));
        }
        assert forall|i: int| cover_choice_from(entries@, title, k as int, i) == cover_choice_from(
            entries@,
            title,
            k + 1,
            i,
        ) by {}
        k += 1;
    }
    let title_s: String = match album.file_name() {
        Some(n) => n,
        None => str_to_string(album.as_str()),
    };
    assert(title_s@ == title);
    let tmask = titled_mask_exec(entries, title_s.as_str());
    if let Some(i) = first_min_index(&names, &tmask) {
        assert(cover_choice_from(entries@, title, 5, i as int));
        return Some(str_to_string(entries[i].path.as_str()));
    }
    let fmask = file_mask_exec(entries);
    match first_min_index(&names, &fmask) {
        Some(i) => {
            assert(cover_choice_from(entries@, title, 5, i as int));
            Some(str_to_string(entries[i].path.as_str()))
        },
        None => None,
    }
}

/// What an uploaded cover is checked for before anything is written: not
/// empty, within the size limit, of an accepted declared and detected
/// type, for an album directory other than the library root.
pub open spec fn cover_upload_check(
    album_rel: Seq<char>,
    bytes: Seq<u8>,
    content_type: Option<Seq<char>>,
) -> Result<(Seq<char>, MimeView), Seq<char>> {
    if bytes.len() == 0 {
        Err("cover image is empty"@)
    } else if bytes.len() > MAX_ALBUM_COVER_BYTES {
        Err("PAYLOAD_TOO_LARGE: cover image exceeds 20971520 bytes"@)
    } else if (match content_type {
        Some(c) => trim(c).len() > 0 && !upload_type_ok(primary_mime_spec(trim(c))),
        None => false,
    }) || !upload_mime_ok(detect_mime_spec(content_type, bytes)) {
        Err("unsupported cover image type"@)
    } else {
        match storage_parse_spec(album_rel) {
            Ok(a) => if a.len() == 0 {
                Err("invalid album path"@)
            } else {
                Ok((a, detect_mime_spec(content_type, bytes)))
            },
            Err(kind) => Err(
                match kind {
                    crate::library::storage::StoragePathError::NotRelative => "invalid library-relative path"@,
                    crate::library::storage::StoragePathError::Escapes => "library path must not escape root"@,
                },
            ),
        }
    }
}

/// The checks of a cover upload (`write_album_cover_file_storage` before it
/// touches storage): the album directory and the cover's type.
pub fn check_cover_upload(album_rel: &str, bytes: &[u8], content_type: Option<&str>) -> (r: Result<
    (StoragePath, CoverMime),
    ApiError,
>)
    ensures
        match cover_upload_check(
            album_rel@,
            bytes@,
            match content_type {
                Some(c) => Some(c@),
                None => None,
            },
        ) {
            Ok((a, m)) => r matches Ok((p, mime)) && p@ == a && mime_view(mime) == m,
            Err(msg) => r matches Err(e) && is_message(e, msg),
        },
{
    if bytes.len() == 0 {
        return Err(ApiError::bad_request("cover image is empty"));
    }
    if bytes.len() > MAX_ALBUM_COVER_BYTES {
        proof {
            reveal_strlit("PAYLOAD_TOO_LARGE: ");
            reveal_strlit("cover image exceeds 20971520 bytes");
            reveal_strlit("PAYLOAD_TOO_LARGE: cover image exceeds 20971520 bytes");
            assert("PAYLOAD_TOO_LARGE: "@ + "cover image exceeds 20971520 bytes"@
                =~= "PAYLOAD_TOO_LARGE: cover image exceeds 20971520 bytes"@);
        }
        return Err(ApiError::payload_too_large("cover image exceeds 20971520 bytes"));
    }
    match validate_upload_content_type_header(content_type) {
        Ok(()) => {},
        Err(e) => {
            return Err(e);
        },
    }
    let mime = detect_cover_mime_type(content_type, bytes);
    if !is_allowed_upload_cover_mime(&mime) {
        return Err(ApiError::bad_request("unsupported cover image type"));
    }
    let album = match StoragePath::parse(album_rel) {
        Ok(a) => a,
        Err(e) => {
            return Err(e);
        },
    };
    if album.is_root() {
        return Err(ApiError::bad_request("invalid album path"));
    }
    Ok((album, mime))
}

/// A file an album's new cover replaces: `folder.jpg`, or `cover.` with
/// anything after it, in any ASCII case.
pub open spec fn is_previous_cover_spec(name: Seq<char>) -> bool {
    let lower = ascii_lower(name);
    lower == "folder.jpg"@ || (starts_with(lower, "cover."@) && lower.len() > 6)
}

pub fn is_previous_cover_file(name: &str) -> (r: bool)
    ensures
        r == is_previous_cover_spec(name@),
{
    let v = chars_of(name);
    let lower = ascii_lower_chars(v.as_slice());
    proof {
        reveal_strlit("cover.");
    }
    chars_is(lower.as_slice(), "folder.jpg") || (starts_with_lit(lower.as_slice(), "cover.")
        && lower.len() > 6)
}

} // verus!
