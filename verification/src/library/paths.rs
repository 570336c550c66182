//! Library layout: `Artist/{year} - {album}/{nn} - {title}.{ext}` names,
//! and the hints read back from such paths.

use vstd::prelude::*;

use crate::fspath::{components, components_exec, is_parent_dir, is_parent_dir_exec, stem_of_name, stem_of_name_exec};
use crate::text::{
    dec_nat,
    append_chars, chars_is, chars_of, deep, dec_int, dec_pad2, eq_ignore_case, eq_ignore_case_chars,
    fmt_i64, fmt_pad2, is_ws, parse_i32, parse_i32_spec, parse_u32, parse_u32_spec,
    replace_char, replace_char_chars, slice_of, split_once, split_once_lit, string_of,
    str_to_string, trim, trim_chars,
};

verus! {

/// `char::is_control` (general category Cc).
pub open spec fn is_control(c: char) -> bool {
    c <= '\u{1f}' || ('\u{7f}' <= c && c <= '\u{9f}')
}

/// Characters that may not appear in a file or folder name of the library.
pub open spec fn is_reserved(c: char) -> bool {
    c == '/' || c == '\\' || c == '\0' || c == ':' || c == '*' || c == '?' || c == '"' || c
        == '<' || c == '>' || c == '|'
}

/// Reserved characters replaced by `_`, other control characters dropped.
pub open spec fn sanitize_chars(s: Seq<char>) -> Seq<char>
    decreases s.len(),
{
    if s.len() == 0 {
        s
    } else {
        let r = sanitize_chars(s.drop_last());
        let c = s.last();
        if is_reserved(c) {
            r.push('_')
        } else if is_control(c) {
            r
        } else {
            r.push(c)
        }
    }
}

/// What `sanitize_component` returns.
pub open spec fn sanitize_spec(s: Seq<char>) -> Seq<char> {
    let t = trim(sanitize_chars(s));
    if t.len() == 0 {
        "unknown"@
    } else {
        t
    }
}

/// The year of a Qobuz `release_date_original`: its first four characters, parsed.
pub open spec fn year_spec(d: Option<Seq<char>>) -> Option<i32> {
    match d {
        Some(s) => if s.len() >= 4 {
            parse_i32_spec(s.subrange(0, 4))
        } else {
            None
        },
        None => None,
    }
}

/// What `album_dir_name` returns.
pub open spec fn album_dir_name_spec(title: Seq<char>, date: Option<Seq<char>>) -> Seq<char> {
    match year_spec(date) {
        Some(y) => dec_int(y as int) + " - "@ + sanitize_spec(title),
        None => "Unknown - "@ + sanitize_spec(title),
    }
}

/// What `parse_album_dir_component` returns.
pub open spec fn album_dir_spec(name: Seq<char>) -> (Option<i32>, Seq<char>) {
    let n = trim(name);
    match split_once(n, " - "@) {
        Some((prefix, title)) => match parse_i32_spec(trim(prefix)) {
            Some(y) => (Some(y), trim(title)),
            None => if eq_ignore_case(prefix, "unknown"@) {
                (None, trim(title))
            } else {
                (None, n)
            },
        },
        None => (None, n),
    }
}

/// What `parse_track_file_stem` returns.
pub open spec fn track_stem_spec(stem: Seq<char>) -> (Option<u32>, Seq<char>) {
    let n = trim(stem);
    match split_once(n, " - "@) {
        Some((prefix, title)) => match parse_u32_spec(trim(prefix)) {
            Some(k) => (Some(k), trim(title)),
            None => (None, n),
        },
        None => (None, n),
    }
}

/// Hints parsed from library-relative paths (`Artist/2020 - Album/01 - Title.flac`).
#[derive(Debug, Clone, PartialEq, Eq)]
pub struct LibraryPathHints {
    pub artist_name: String,
    pub album_title: String,
    pub year: Option<i32>,
    pub track_title: Option<String>,
    pub track_number: Option<u32>,
}

pub struct HintsView {
    pub artist_name: Seq<char>,
    pub album_title: Seq<char>,
    pub year: Option<i32>,
    pub track_title: Option<Seq<char>>,
    pub track_number: Option<u32>,
}

impl LibraryPathHints {
    pub open spec fn view_hints(&self) -> HintsView {
        HintsView {
            artist_name: self.artist_name@,
            album_title: self.album_title@,
            year: self.year,
            track_title: match self.track_title {
                Some(t) => Some(t@),
                None => None,
            },
            track_number: self.track_number,
        }
    }
}

/// Path of a track relative to the library root, with `\` read as `/`.
pub open spec fn normalized_rel(rel: Seq<char>) -> Seq<char> {
    replace_char(trim(rel), '\\', '/')
}

/// What `library_path_hints` returns: the last three components are artist,
/// album folder and track file.
pub open spec fn path_hints_spec(rel: Seq<char>) -> Option<HintsView> {
    let r = normalized_rel(rel);
    let cs = components(r);
    let n = cs.len();
    if r.len() == 0 || n < 3 || is_parent_dir(cs[n - 1]) || is_parent_dir(cs[n - 2])
        || is_parent_dir(cs[n - 3]) {
        None
    } else {
        let album = album_dir_spec(cs[n - 2]);
        let track = track_stem_spec(stem_of_name(cs[n - 1]));
        Some(
            HintsView {
                artist_name: cs[n - 3],
                album_title: album.1,
                year: album.0,
                track_title: Some(track.1),
                track_number: track.0,
            },
        )
    }
}

fn is_reserved_exec(c: char) -> (r: bool)
    ensures
        r == is_reserved(c),
{
    c == '/' || c == '\\' || c == '\0' || c == ':' || c == '*' || c == '?' || c == '"' || c
        == '<' || c == '>' || c == '|'
}

fn is_control_exec(c: char) -> (r: bool)
    ensures
        r == is_control(c),
{
    c <= '\u{1f}' || ('\u{7f}' <= c && c <= '\u{9f}')
}

/// Make `name` safe as a single file or folder name.
pub fn sanitize_component(name: &str) -> (r: String)
    ensures
        r@ == sanitize_spec(name@),
{
    let v = chars_of(name);
    let mut out: Vec<char> = Vec::new();
    let mut i: usize = 0;
    while i < v.len()
        invariant
            i <= v.len(),
            v@ == name@,
            out@ == sanitize_chars(v@.subrange(0, i as int)),
        decreases v.len() - i,
    {
        let ghost pre = v@.subrange(0, i as int);
        let ghost next = v@.subrange(0, i + 1);
        assert(next.drop_last() =~= pre);
        let c = v[i];
        if is_reserved_exec(c) {
            out.push('_');
        } else if is_control_exec(c) {
        } else {
            out.push(c);
        }
        i += 1;
    }
    assert(v@.subrange(0, v.len() as int) =~= v@);
    let t = trim_chars(out.as_slice());
    if t.len() == 0 {
        str_to_string("unknown")
    } else {
        string_of(t.as_slice())
    }
}

/// File extension for a Qobuz quality code: MP3 for code 5, FLAC otherwise.
pub fn extension_for_quality(quality: u8) -> (r: &'static str)
    ensures
        quality == 5 ==> r@ == "mp3"@,
        quality != 5 ==> r@ == "flac"@,
{
    match quality {
        5 => "mp3",
        _ => "flac",
    }
}

fn year_from_chars(s: &[char]) -> (r: Option<i32>)
    ensures
        r == year_spec(Some(s@)),
{
    if s.len() >= 4 {
        let head = slice_of(s, 0, 4);
        parse_i32(head.as_slice())
    } else {
        None
    }
}

/// Year from Qobuz `release_date_original` (typically `YYYY-MM-DD`).
pub fn year_from_release_date(release_date_original: Option<&str>) -> (r: Option<i32>)
    ensures
        r == year_spec(
            match release_date_original {
                Some(s) => Some(s@),
                None => None,
            },
        ),
{
    match release_date_original {
        Some(s) => {
            let v = chars_of(s);
            year_from_chars(v.as_slice())
        },
        None => None,
    }
}

/// Album folder name: `{year} - {title}` (or `Unknown - {title}` when year is missing).
pub fn album_dir_name(title: &str, release_date_original: Option<&str>) -> (r: String)
    ensures
        r@ == album_dir_name_spec(
            title@,
            match release_date_original {
                Some(s) => Some(s@),
                None => None,
            },
        ),
{
    let t = sanitize_component(title);
    let tv = chars_of(t.as_str());
    let mut out: Vec<char> = match year_from_release_date(release_date_original) {
        Some(year) => {
            let mut o = fmt_i64(year as i64);
            let sep = chars_of(" - ");
            append_chars(&mut o, sep.as_slice());
            o
        },
        None => chars_of("Unknown - "),
    };
    append_chars(&mut out, tv.as_slice());
    string_of(out.as_slice())
}

fn album_dir_exec(name: &[char]) -> (r: (Option<i32>, Vec<char>))
    ensures
        r.0 == album_dir_spec(name@).0,
        r.1@ == album_dir_spec(name@).1,
{
    let n = trim_chars(name);
    match split_once_lit(n.as_slice(), " - ") {
        Some((prefix, title)) => {
            let tp = trim_chars(prefix.as_slice());
            match parse_i32(tp.as_slice()) {
                Some(y) => (Some(y), trim_chars(title.as_slice())),
                None => {
                    let unknown = chars_of("unknown");
                    if eq_ignore_case_chars(prefix.as_slice(), unknown.as_slice()) {
                        (None, trim_chars(title.as_slice()))
                    } else {
                        (None, n)
                    }
                },
            }
        },
        None => (None, n),
    }
}

/// Parse album folder name: `2019 - Album` or `Unknown - Album` or plain `Album`.
pub fn parse_album_dir_component(name: &str) -> (r: (Option<i32>, String))
    ensures
        r.0 == album_dir_spec(name@).0,
        r.1@ == album_dir_spec(name@).1,
{
    let v = chars_of(name);
    let (y, t) = album_dir_exec(v.as_slice());
    (y, string_of(t.as_slice()))
}

fn track_stem_exec(stem: &[char]) -> (r: (Option<u32>, Vec<char>))
    ensures
        r.0 == track_stem_spec(stem@).0,
        r.1@ == track_stem_spec(stem@).1,
{
    let n = trim_chars(stem);
    match split_once_lit(n.as_slice(), " - ") {
        Some((prefix, title)) => {
            let tp = trim_chars(prefix.as_slice());
            match parse_u32(tp.as_slice()) {
                Some(k) => (Some(k), trim_chars(title.as_slice())),
                None => (None, n),
            }
        },
        None => (None, n),
    }
}

/// Parse track file stem: `03 - Song` or `Song`.
pub fn parse_track_file_stem(stem: &str) -> (r: (Option<u32>, String))
    ensures
        r.0 == track_stem_spec(stem@).0,
        r.1@ == track_stem_spec(stem@).1,
{
    let v = chars_of(stem);
    let (k, t) = track_stem_exec(v.as_slice());
    (k, string_of(t.as_slice()))
}

/// Parse a path relative to the library root (forward slashes).
pub fn library_path_hints(rel: &str) -> (r: Option<LibraryPathHints>)
    ensures
        r matches Some(h) ==> path_hints_spec(rel@) == Some(h.view_hints()),
        r is None ==> path_hints_spec(rel@) is None,
{
    let v = chars_of(rel);
    let t = trim_chars(v.as_slice());
    let r = replace_char_chars(t.as_slice(), '\\', '/');
    if r.len() == 0 {
        return None;
    }
    let cs = components_exec(r.as_slice());
    let n = cs.len();
    if n < 3 {
        return None;
    }
    proof {
        assert(deep(cs@)[n - 1] == cs@[n - 1]@);
        assert(deep(cs@)[n - 2] == cs@[n - 2]@);
        assert(deep(cs@)[n - 3] == cs@[n - 3]@);
    }
    if is_parent_dir_exec(cs[n - 1].as_slice()) || is_parent_dir_exec(cs[n - 2].as_slice())
        || is_parent_dir_exec(cs[n - 3].as_slice()) {
        return None;
    }
    let (year, album_title) = album_dir_exec(cs[n - 2].as_slice());
    let stem = stem_of_name_exec(cs[n - 1].as_slice());
    let (track_number, track_title) = track_stem_exec(stem.as_slice());
    let h = LibraryPathHints {
        artist_name: string_of(cs[n - 3].as_slice()),
        album_title: string_of(album_title.as_slice()),
        year,
        track_title: Some(string_of(track_title.as_slice())),
        track_number,
    };
    Some(h)
}

/// `PathBuf::join` of a single relative component: a `/` is inserted unless
/// the base is empty or already ends in `/`.
pub open spec fn path_join(base: Seq<char>, comp: Seq<char>) -> Seq<char> {
    if base.len() == 0 || base.last() == '/' {
        base + comp
    } else {
        base.push('/') + comp
    }
}

pub fn path_join_exec(base: &[char], comp: &[char]) -> (r: Vec<char>)
    ensures
        r@ == path_join(base@, comp@),
{
    let mut out = slice_of(base, 0, base.len());
    assert(base@.subrange(0, base.len() as int) =~= base@);
    if base.len() != 0 && base[base.len() - 1] != '/' {
        out.push('/');
    }
    append_chars(&mut out, comp);
    out
}

/// The album fields a library path is built from (artist, title, release date).
#[derive(Debug, Clone)]
pub struct AlbumPathInfo {
    pub artist_name: Option<String>,
    pub title: String,
    pub release_date_original: Option<String>,
}

/// The track fields a library path is built from.
#[derive(Debug, Clone)]
pub struct TrackPathInfo {
    pub title: String,
    pub track_number: Option<u32>,
}

/// Artist folder name of an album.
pub open spec fn artist_dir_spec(album: AlbumPathInfo) -> Seq<char> {
    match album.artist_name {
        Some(a) => sanitize_spec(a@),
        None => "Unknown Artist"@,
    }
}

/// Track file name: `{nn} - {title}.{ext}`.
pub open spec fn track_file_name_spec(track: TrackPathInfo, quality: u8) -> Seq<char> {
    let num: nat = match track.track_number {
        Some(k) => k as nat,
        None => 0,
    };
    let ext = if quality == 5 { "mp3"@ } else { "flac"@ };
    dec_pad2(num) + " - "@ + sanitize_spec(track.title@) + "."@ + ext
}

/// What `track_path` returns.
pub open spec fn track_path_spec(
    root: Seq<char>,
    album: AlbumPathInfo,
    track: TrackPathInfo,
    quality: u8,
) -> Seq<char> {
    let date = match album.release_date_original {
        Some(d) => Some(d@),
        None => None,
    };
    path_join(
        path_join(path_join(root, artist_dir_spec(album)), album_dir_name_spec(album.title@, date)),
        track_file_name_spec(track, quality),
    )
}

/// Where a downloaded track lives under `library_root`.
pub fn track_path(
    library_root: &str,
    album: &AlbumPathInfo,
    track: &TrackPathInfo,
    quality: u8,
) -> (r: String)
    ensures
        r@ == track_path_spec(library_root@, *album, *track, quality),
{
    let artist: String = match &album.artist_name {
        Some(a) => sanitize_component(a.as_str()),
        None => str_to_string("Unknown Artist"),
    };
    let date: Option<&str> = match &album.release_date_original {
        Some(d) => Some(d.as_str()),
        None => None,
    };
    let album_dir = album_dir_name(album.title.as_str(), date);
    let num: u32 = match track.track_number {
        Some(k) => k,
        None => 0,
    };
    let mut file = fmt_pad2(num as u64);
    let sep = chars_of(" - ");
    append_chars(&mut file, sep.as_slice());
    let title = sanitize_component(track.title.as_str());
    let tv = chars_of(title.as_str());
    append_chars(&mut file, tv.as_slice());
    let dot = chars_of(".");
    append_chars(&mut file, dot.as_slice());
    let ext = chars_of(extension_for_quality(quality));
    append_chars(&mut file, ext.as_slice());
    let root = chars_of(library_root);
    let av = chars_of(artist.as_str());
    let dv = chars_of(album_dir.as_str());
    let p1 = path_join_exec(root.as_slice(), av.as_slice());
    let p2 = path_join_exec(p1.as_slice(), dv.as_slice());
    let p3 = path_join_exec(p2.as_slice(), file.as_slice());
    string_of(p3.as_slice())
}


/// No character of `s` is reserved or a control character.
pub open spec fn name_chars_allowed(s: Seq<char>) -> bool {
    forall|i: int| 0 <= i < s.len() ==> !is_reserved(#[trigger] s[i]) && !is_control(s[i])
}

proof fn lemma_sanitize_chars_allowed(s: Seq<char>)
    ensures
        name_chars_allowed(sanitize_chars(s)),
    decreases s.len(),
{
    if s.len() > 0 {
        lemma_sanitize_chars_allowed(s.drop_last());
        let r = sanitize_chars(s.drop_last());
        let out = sanitize_chars(s);
        assert forall|i: int| 0 <= i < out.len() implies !is_reserved(#[trigger] out[i]) && !is_control(out[i]) by {
            if i < r.len() {
                assert(out[i] == r[i]);
            }
        }
    }
}

proof fn lemma_sanitize_chars_keeps_allowed(s: Seq<char>)
    requires
        name_chars_allowed(s),
    ensures
        sanitize_chars(s) == s,
    decreases s.len(),
{
    if s.len() > 0 {
        let p = s.drop_last();
        assert forall|i: int| 0 <= i < p.len() implies !is_reserved(#[trigger] p[i]) && !is_control(p[i]) by {
            assert(p[i] == s[i]);
        }
        lemma_sanitize_chars_keeps_allowed(p);
        assert(!is_reserved(s[s.len() - 1]) && !is_control(s[s.len() - 1]));
        assert(p.push(s.last()) =~= s);
    }
}

proof fn lemma_trim_allowed(s: Seq<char>)
    requires
        name_chars_allowed(s),
    ensures
        name_chars_allowed(trim(s)),
{
    crate::text::lemma_trim_chars_from(s);
    let t = trim(s);
    assert forall|i: int| 0 <= i < t.len() implies !is_reserved(#[trigger] t[i]) && !is_control(t[i]) by {
        let j = choose|j: int| 0 <= j < s.len() && s[j] == t[i];
        assert(!is_reserved(s[j]) && !is_control(s[j]));
    }
}

/// A sanitized name is never empty, has no whitespace at either end, holds
/// no reserved or control character, and sanitizing it again changes
/// nothing.
pub proof fn lemma_sanitize_component_valid(name: Seq<char>)
    ensures
        sanitize_spec(name).len() > 0,
        !is_ws(sanitize_spec(name)[0]),
        !is_ws(sanitize_spec(name).last()),
        trim(sanitize_spec(name)) == sanitize_spec(name),
        name_chars_allowed(sanitize_spec(name)),
        sanitize_spec(sanitize_spec(name)) == sanitize_spec(name),
{
    reveal_strlit("unknown");
    let c = sanitize_chars(name);
    lemma_sanitize_chars_allowed(name);
    lemma_trim_allowed(c);
    crate::text::lemma_trim_idempotent(c);
    let r = sanitize_spec(name);
    if trim(c).len() == 0 {
        assert(r =~= seq!['u', 'n', 'k', 'n', 'o', 'w', 'n']);
        assert(!is_ws(r[0]));
        assert(!is_ws(r.last()));
        assert(crate::text::trim_start(r) == r);
        assert(crate::text::trim_end(r) == r);
        assert forall|i: int| 0 <= i < r.len() implies !is_reserved(#[trigger] r[i]) && !is_control(r[i]) by {}
    }
    assert(trim(r) == r);
    lemma_sanitize_chars_keeps_allowed(r);
}

/// Where `head` holds no space, `head`, ` - ` and `t` in a row split at the
/// first ` - ` into `head` and `t`.
proof fn lemma_split_after_head(head: Seq<char>, t: Seq<char>)
    requires
        forall|i: int| 0 <= i < head.len() ==> head[i] != ' ',
    ensures
        split_once(head + " - "@ + t, " - "@) == Some((head, t)),
{
    reveal_strlit(" - ");
    let p = " - "@;
    let n = head + p + t;
    let k = head.len() as int;
    assert(n.subrange(k, k + 3) =~= p);
    assert(crate::text::match_at(n, p, k));
    assert forall|j: int| 0 <= j < k implies !crate::text::match_at(n, p, j) by {
        if crate::text::match_at(n, p, j) {
            assert(n.subrange(j, j + 3)[0] == n[j]);
            assert(n[j] == head[j]);
        }
    }
    crate::text::lemma_find_from_bounds(n, p, 0);
    assert(crate::text::find(n, p) == Some(k));
    assert(n.subrange(0, k) =~= head);
    assert(n.subrange(k + 3, n.len() as int) =~= t);
}

/// A signed number's decimal text is digits after an optional `-`, and
/// parses back to the number.
proof fn lemma_dec_int_parses(y: i32)
    ensures
        dec_int(y as int).len() > 0,
        forall|i: int| 0 <= i < dec_int(y as int).len() ==> (crate::text::is_digit(#[trigger] dec_int(y as int)[i])
            || dec_int(y as int)[i] == '-'),
        crate::text::is_digit(dec_int(y as int).last()),
        parse_i32_spec(dec_int(y as int)) == Some(y),
{
    let s = dec_int(y as int);
    if y < 0 {
        let m = (-(y as int)) as nat;
        crate::library::tag_io::lemma_dec_digits(m);
        let d = dec_nat(m);
        assert(s == seq!['-'] + d);
        assert(s.drop_first() =~= d);
        assert forall|i: int| 0 <= i < s.len() implies (crate::text::is_digit(#[trigger] s[i]) || s[i] == '-') by {
            if i > 0 {
                assert(s[i] == d[i - 1]);
            }
        }
        assert(s.last() == d.last());
        assert(crate::text::is_digit(d[d.len() - 1]));
    } else {
        crate::library::tag_io::lemma_dec_digits(y as nat);
        let d = dec_nat(y as nat);
        assert(s == d);
        assert(crate::text::is_digit(d[0]));
        assert(crate::text::is_digit(d[d.len() - 1]));
        assert(crate::text::unsigned_body(d) == Some(d));
    }
}

/// A folder name built by `album_dir_name` parses back to the release
/// year and the sanitized title.
pub proof fn lemma_album_dir_round_trip(title: Seq<char>, date: Option<Seq<char>>)
    ensures
        album_dir_spec(album_dir_name_spec(title, date)) == (year_spec(date), sanitize_spec(title)),
{
    reveal_strlit(" - ");
    reveal_strlit("Unknown - ");
    reveal_strlit("unknown");
    let t = sanitize_spec(title);
    lemma_sanitize_component_valid(title);
    let name = album_dir_name_spec(title, date);
    let head = match year_spec(date) {
        Some(y) => dec_int(y as int),
        None => seq!['U', 'n', 'k', 'n', 'o', 'w', 'n'],
    };
    match year_spec(date) {
        Some(y) => {
            lemma_dec_int_parses(y);
            assert(crate::text::is_digit(head[0]) || head[0] == '-');
        },
        None => {
            assert(name =~= head + " - "@ + t);
        },
    }
    assert(name == head + " - "@ + t);
    assert forall|i: int| 0 <= i < head.len() implies head[i] != ' ' && !is_ws(#[trigger] head[i]) by {
        match year_spec(date) {
            Some(y) => {
                assert(crate::text::is_digit(head[i]) || head[i] == '-');
            },
            None => {},
        }
    }
    lemma_split_after_head(head, t);
    assert(name[0] == head[0]);
    assert(name.last() == t.last());
    assert(crate::text::trim_start(name) == name);
    assert(crate::text::trim_end(name) == name);
    assert(head.last() == head[head.len() - 1]);
    assert(crate::text::trim_start(head) == head);
    assert(crate::text::trim_end(head) == head);
    match year_spec(date) {
        Some(y) => {},
        None => {
            assert(parse_i32_spec(head) is None) by {
                assert(!crate::text::is_digit(head[0]));
            }
            assert(crate::text::ascii_lower(head) =~= crate::text::ascii_lower("unknown"@));
        },
    }
}


/// A track number as `{n:02}` is nonempty digits that parse back to it.
proof fn lemma_pad2_parses(n: u32)
    ensures
        dec_pad2(n as nat).len() > 0,
        forall|i: int| 0 <= i < dec_pad2(n as nat).len() ==> crate::text::is_digit(#[trigger] dec_pad2(n as nat)[i]),
        parse_u32_spec(dec_pad2(n as nat)) == Some(n),
{
    let s = dec_pad2(n as nat);
    crate::library::tag_io::lemma_dec_digits(n as nat);
    if n < 10 {
        let dc = crate::text::digit_char(n as nat);
        assert((dc as u32) == ('0' as u32) + n);
        assert(dec_nat(n as nat) == seq![dc]);
        assert(s =~= seq!['0', dc]);
        let z = s.drop_last();
        assert(z =~= seq!['0']);
        assert(z.drop_last() =~= Seq::<char>::empty());
        assert(z.last() == '0');
        assert(crate::text::digit_value('0') == 0);
        assert(crate::text::digits_value(Seq::<char>::empty()) == 0);
        assert(crate::text::digits_value(z) == crate::text::digits_value(z.drop_last()) * 10
            + crate::text::digit_value(z.last()));
        assert(crate::text::digits_value(z) == 0);
        assert(s.last() == dc);
        assert(crate::text::digit_value(dc) == n);
        assert(crate::text::digits_value(s) == crate::text::digits_value(z) * 10
            + crate::text::digit_value(s.last()));
        assert(crate::text::digits_value(s) == n);
        assert(crate::text::is_digit(s[0]) && crate::text::is_digit(s[1]));
        assert(crate::text::unsigned_body(s) == Some(s));
    } else {
        assert(crate::text::is_digit(s[0]));
        assert(crate::text::unsigned_body(s) == Some(s));
    }
}

/// A track's file name as `track_path` builds it reads back as the track's
/// number (0 where it has none) and its sanitized title.
pub proof fn lemma_track_file_name_round_trip(track: TrackPathInfo, quality: u8)
    ensures
        track_stem_spec(stem_of_name(track_file_name_spec(track, quality))) == (
            Some(
                match track.track_number {
                    Some(k) => k,
                    None => 0u32,
                },
            ),
            sanitize_spec(track.title@),
        ),
{
    reveal_strlit(".");
    reveal_strlit("mp3");
    reveal_strlit("flac");
    reveal_strlit(" - ");
    let num: u32 = match track.track_number {
        Some(k) => k,
        None => 0u32,
    };
    let head = dec_pad2(num as nat);
    let t = sanitize_spec(track.title@);
    lemma_sanitize_component_valid(track.title@);
    lemma_pad2_parses(num);
    let ext = if quality == 5 {
        "mp3"@
    } else {
        "flac"@
    };
    assert forall|j: int| 0 <= j < ext.len() implies ext[j] != '.' by {}
    let stem = head + " - "@ + t;
    let name = stem + "."@ + ext;
    assert(name == track_file_name_spec(track, quality));
    let k = stem.len() as int;
    assert(name[k] == '.');
    crate::text::lemma_rfind_char_bounds(name, '.');
    assert forall|j: int| k < j < name.len() implies name[j] != '.' by {
        assert(name[j] == ext[j - k - 1]);
    }
    assert(crate::text::rfind_char(name, '.') == Some(k));
    assert(name.subrange(0, k) =~= stem);
    assert forall|i: int| 0 <= i < head.len() implies head[i] != ' ' by {
        assert(crate::text::is_digit(head[i]));
    }
    lemma_split_after_head(head, t);
    assert(stem[0] == head[0]);
    assert(crate::text::is_digit(head[0]));
    assert(stem.last() == t.last());
    assert(crate::text::trim_start(stem) == stem);
    assert(crate::text::trim_end(stem) == stem);
    assert(crate::text::is_digit(head[head.len() - 1]));
    assert(crate::text::trim_start(head) == head);
    assert(crate::text::trim_end(head) == head);
}


/// A release date that starts with a four-digit year gives that year,
/// whatever follows it.
pub proof fn lemma_release_year(y: u32, rest: Seq<char>)
    requires
        1000 <= y <= 9999,
    ensures
        year_spec(Some(dec_nat(y as nat) + rest)) == Some(y as i32),
{
    let n = y as nat;
    assert(n / 10 / 10 == n / 100 && n / 100 / 10 == n / 1000) by (nonlinear_arith)
        requires
            1000 <= n <= 9999,
    ;
    assert(1 <= n / 1000 < 10 && 10 <= n / 100 && 100 <= n / 10 && n / 10 < 1000) by (nonlinear_arith)
        requires
            1000 <= n <= 9999,
    ;
    assert(dec_nat(n / 1000).len() == 1);
    assert(dec_nat(n / 100).len() == 2);
    assert(dec_nat(n / 10).len() == 3);
    assert(dec_nat(n).len() == 4);
    crate::library::tag_io::lemma_dec_digits(n);
    let d = dec_nat(n);
    let s = d + rest;
    assert(s.subrange(0, 4) =~= d);
    assert(crate::text::is_digit(d[0]));
    assert(crate::text::unsigned_body(d) == Some(d));
}

} // verus!
