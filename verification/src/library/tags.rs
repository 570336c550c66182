//! Track tags: the record read from and written to audio files, patches
//! applied to it, and the fallback read from library paths.

use vstd::prelude::*;

use crate::fspath::{
    components, extension_lower, extension_lower_exec, nth_name, nth_name_exec, stem_of_name,
    stem_of_name_exec,
};
use crate::library::paths::{
    album_dir_spec, library_path_hints, parse_album_dir_component, parse_track_file_stem,
    path_hints_spec, track_stem_spec, HintsView,
};
use crate::text::{
    ascii_lower, ascii_lower_chars, chars_is, chars_of, split_once, split_once_lit, string_of,
    str_to_string, trim, trim_chars,
};

verus! {

#[derive(Debug, Clone, PartialEq, Eq)]
pub struct TrackTags {
    pub title: String,
    pub artist: String,
    pub album: String,
    pub track_number: Option<u32>,
    pub year: Option<u32>,
    pub disc_number: Option<u32>,
    pub track_total: Option<u32>,
    pub disc_total: Option<u32>,
    pub genre: Option<String>,
    pub duration_sec: Option<u32>,
    pub qobuz_track_id: Option<u64>,
    pub qobuz_album_id: Option<u64>,
    pub label: Option<String>,
    pub isrc: Option<String>,
    pub composer: Option<String>,
}

/// Album-wide tag fields applied to every track file (per-track title/number unchanged).
#[derive(Debug, Clone, Default)]
pub struct AlbumTagsPatch {
    pub artist: Option<String>,
    pub album: Option<String>,
    pub year: Option<u32>,
    pub genre: Option<String>,
    pub track_total: Option<u32>,
    pub disc_total: Option<u32>,
}

#[derive(Debug, Clone, Default)]
pub struct TrackTagsPatch {
    pub title: Option<String>,
    pub artist: Option<String>,
    pub album: Option<String>,
    pub track_number: Option<u32>,
    pub year: Option<u32>,
    pub disc_number: Option<u32>,
    pub genre: Option<String>,
}

pub open spec fn opt_view(o: Option<String>) -> Option<Seq<char>> {
    match o {
        Some(s) => Some(s@),
        None => None,
    }
}

/// Track tags with strings taken as character sequences.
pub struct TagsView {
    pub title: Seq<char>,
    pub artist: Seq<char>,
    pub album: Seq<char>,
    pub track_number: Option<u32>,
    pub year: Option<u32>,
    pub disc_number: Option<u32>,
    pub track_total: Option<u32>,
    pub disc_total: Option<u32>,
    pub genre: Option<Seq<char>>,
    pub duration_sec: Option<u32>,
    pub qobuz_track_id: Option<u64>,
    pub qobuz_album_id: Option<u64>,
    pub label: Option<Seq<char>>,
    pub isrc: Option<Seq<char>>,
    pub composer: Option<Seq<char>>,
}

impl TrackTags {
    pub open spec fn tags_view(&self) -> TagsView {
        TagsView {
            title: self.title@,
            artist: self.artist@,
            album: self.album@,
            track_number: self.track_number,
            year: self.year,
            disc_number: self.disc_number,
            track_total: self.track_total,
            disc_total: self.disc_total,
            genre: opt_view(self.genre),
            duration_sec: self.duration_sec,
            qobuz_track_id: self.qobuz_track_id,
            qobuz_album_id: self.qobuz_album_id,
            label: opt_view(self.label),
            isrc: opt_view(self.isrc),
            composer: opt_view(self.composer),
        }
    }
}

pub fn clone_opt(o: &Option<String>) -> (r: Option<String>)
    ensures
        opt_view(r) == opt_view(*o),
{
    match o {
        Some(s) => Some(s.clone()),
        None => None,
    }
}

/// A copy of `t` whose view is the same.
pub fn copy_tags(t: &TrackTags) -> (r: TrackTags)
    ensures
        r.tags_view() == t.tags_view(),
{
    TrackTags {
        title: t.title.clone(),
        artist: t.artist.clone(),
        album: t.album.clone(),
        track_number: t.track_number,
        year: t.year,
        disc_number: t.disc_number,
        track_total: t.track_total,
        disc_total: t.disc_total,
        genre: clone_opt(&t.genre),
        duration_sec: t.duration_sec,
        qobuz_track_id: t.qobuz_track_id,
        qobuz_album_id: t.qobuz_album_id,
        label: clone_opt(&t.label),
        isrc: clone_opt(&t.isrc),
        composer: clone_opt(&t.composer),
    }
}

/// Content type served for an audio file, by extension.
pub open spec fn audio_content_type_spec(path: Seq<char>) -> Seq<char> {
    match extension_lower(path) {
        Some(e) => if e == "flac"@ {
            "audio/flac"@
        } else if e == "mp3"@ {
            "audio/mpeg"@
        } else if e == "m4a"@ {
            "audio/mp4"@
        } else if e == "aac"@ {
            "audio/aac"@
        } else if e == "ogg"@ {
            "audio/ogg"@
        } else if e == "opus"@ {
            "audio/opus"@
        } else if e == "wav"@ {
            "audio/wav"@
        } else if e == "aiff"@ || e == "aif"@ {
            "audio/aiff"@
        } else {
            "application/octet-stream"@
        },
        None => "application/octet-stream"@,
    }
}

/// Extensions of the audio files the library indexes.
pub open spec fn is_audio_ext(e: Seq<char>) -> bool {
    e == "flac"@ || e == "mp3"@ || e == "m4a"@ || e == "aac"@ || e == "ogg"@ || e == "opus"@
        || e == "wav"@ || e == "aiff"@ || e == "aif"@ || e == "wv"@ || e == "ape"@
}

pub open spec fn is_audio_file_spec(path: Seq<char>) -> bool {
    match extension_lower(path) {
        Some(e) => is_audio_ext(e),
        None => false,
    }
}

pub fn audio_content_type(path: &str) -> (r: &'static str)
    ensures
        r@ == audio_content_type_spec(path@),
{
    let v = chars_of(path);
    match extension_lower_exec(v.as_slice()) {
        Some(e) => {
            let e = e.as_slice();
            if chars_is(e, "flac") {
                "audio/flac"
            } else if chars_is(e, "mp3") {
                "audio/mpeg"
            } else if chars_is(e, "m4a") {
                "audio/mp4"
            } else if chars_is(e, "aac") {
                "audio/aac"
            } else if chars_is(e, "ogg") {
                "audio/ogg"
            } else if chars_is(e, "opus") {
                "audio/opus"
            } else if chars_is(e, "wav") {
                "audio/wav"
            } else if chars_is(e, "aiff") || chars_is(e, "aif") {
                "audio/aiff"
            } else {
                "application/octet-stream"
            }
        },
        None => "application/octet-stream",
    }
}

pub fn is_audio_ext_exec(e: &[char]) -> (r: bool)
    ensures
        r == is_audio_ext(e@),
{
    chars_is(e, "flac") || chars_is(e, "mp3") || chars_is(e, "m4a") || chars_is(e, "aac")
        || chars_is(e, "ogg") || chars_is(e, "opus") || chars_is(e, "wav") || chars_is(e, "aiff")
        || chars_is(e, "aif") || chars_is(e, "wv") || chars_is(e, "ape")
}

/// Is `path` an audio file the library indexes (by its extension, any case)?
pub fn is_audio_file(path: &str) -> (r: bool)
    ensures
        r == is_audio_file_spec(path@),
{
    let v = chars_of(path);
    match extension_lower_exec(v.as_slice()) {
        Some(e) => is_audio_ext_exec(e.as_slice()),
        None => false,
    }
}

/// Folder names that are library layout containers, not performing artists.
pub open spec fn is_generic_artist_dir_spec(name: Seq<char>) -> bool {
    let n = ascii_lower(trim(name));
    n == "qobuz"@ || n == "downloads"@ || n == "torrent"@ || n == "torrents"@ || n == "incoming"@
}

pub fn is_generic_artist_dir(name: &[char]) -> (r: bool)
    ensures
        r == is_generic_artist_dir_spec(name@),
{
    let t = trim_chars(name);
    let n = ascii_lower_chars(t.as_slice());
    let n = n.as_slice();
    chars_is(n, "qobuz") || chars_is(n, "downloads") || chars_is(n, "torrent") || chars_is(
        n,
        "torrents",
    ) || chars_is(n, "incoming")
}

/// Display artist of a `Genesis - …` style album folder name.
pub open spec fn artist_from_album_folder_spec(folder: Seq<char>) -> Seq<char> {
    match split_once(folder, " - "@) {
        Some((a, _)) => if trim(a).len() > 0 {
            trim(a)
        } else {
            trim(folder)
        },
        None => trim(folder),
    }
}

pub fn artist_from_album_folder(folder: &[char]) -> (r: Vec<char>)
    ensures
        r@ == artist_from_album_folder_spec(folder@),
{
    match split_once_lit(folder, " - ") {
        Some((a, _)) => {
            let t = trim_chars(a.as_slice());
            if t.len() > 0 {
                t
            } else {
                trim_chars(folder)
            }
        },
        None => trim_chars(folder),
    }
}

pub open spec fn or_default(o: Option<Seq<char>>, d: Seq<char>) -> Seq<char> {
    match o {
        Some(s) => s,
        None => d,
    }
}

pub open spec fn year_u32(y: Option<i32>) -> Option<u32> {
    match y {
        Some(v) => Some(v as u32),
        None => None,
    }
}

/// Tags carrying only title, artist, album, track number and year.
pub open spec fn basic_tags(
    title: Seq<char>,
    artist: Seq<char>,
    album: Seq<char>,
    track_number: Option<u32>,
    year: Option<u32>,
) -> TagsView {
    TagsView {
        title,
        artist,
        album,
        track_number,
        year,
        disc_number: None,
        track_total: None,
        disc_total: None,
        genre: None,
        duration_sec: None,
        qobuz_track_id: None,
        qobuz_album_id: None,
        label: None,
        isrc: None,
        composer: None,
    }
}

/// Tags derived from a library path when the file's own tags cannot be read.
pub open spec fn tags_from_path_spec(path: Seq<char>, rel: Option<Seq<char>>) -> TagsView {
    let cs = components(path);
    let hints = match rel {
        Some(r) => path_hints_spec(r),
        None => None,
    };
    match hints {
        Some(h) => {
            let album_component = or_default(nth_name(cs, 1), Seq::empty());
            let artist = if is_generic_artist_dir_spec(h.artist_name) {
                artist_from_album_folder_spec(album_component)
            } else {
                h.artist_name
            };
            let title = match h.track_title {
                Some(t) => t,
                None => track_stem_spec(
                    stem_of_name(or_default(nth_name(cs, 0), "Unknown Title"@)),
                ).1,
            };
            basic_tags(title, artist, h.album_title, h.track_number, year_u32(h.year))
        },
        None => {
            let stem = match nth_name(cs, 0) {
                Some(n) => stem_of_name(n),
                None => "Unknown Title"@,
            };
            let track = track_stem_spec(stem);
            let album_folder = or_default(nth_name(cs, 1), "Unknown Album"@);
            let album = album_dir_spec(album_folder);
            let artist = match nth_name(cs, 2) {
                Some(a) => if !is_generic_artist_dir_spec(a) {
                    a
                } else {
                    artist_from_album_folder_spec(album_folder)
                },
                None => artist_from_album_folder_spec(album_folder),
            };
            basic_tags(track.1, artist, album.1, track.0, year_u32(album.0))
        },
    }
}

fn or_default_exec(o: Option<Vec<char>>, d: &str) -> (r: Vec<char>)
    ensures
        r@ == or_default(
            match o {
                Some(v) => Some(v@),
                None => None,
            },
            d@,
        ),
{
    match o {
        Some(v) => v,
        None => chars_of(d),
    }
}

fn tags_with(
    title: String,
    artist: String,
    album: String,
    track_number: Option<u32>,
    year: Option<u32>,
) -> (r: TrackTags)
    ensures
        r.tags_view() == basic_tags(title@, artist@, album@, track_number, year),
{
    TrackTags {
        title,
        artist,
        album,
        track_number,
        year,
        disc_number: None,
        track_total: None,
        disc_total: None,
        genre: None,
        duration_sec: None,
        qobuz_track_id: None,
        qobuz_album_id: None,
        label: None,
        isrc: None,
        composer: None,
    }
}

fn year_to_u32(y: Option<i32>) -> (r: Option<u32>)
    ensures
        r == year_u32(y),
{
    match y {
        Some(v) => Some(v as u32),
        None => None,
    }
}

/// Tags from the path layout (`Artist/Year - Album/NN - Title.ext`), used when
/// the file's own tags cannot be read.
pub fn tags_from_path(path: &str, path_rel: Option<&str>) -> (r: TrackTags)
    ensures
        r.tags_view() == tags_from_path_spec(
            path@,
            match path_rel {
                Some(s) => Some(s@),
                None => None,
            },
        ),
{
    let pv = chars_of(path);
    let hints = match path_rel {
        Some(rel) => library_path_hints(rel),
        None => None,
    };
    match hints {
        Some(h) => {
            let album_component = match nth_name_exec(pv.as_slice(), 1) {
                Some(n) => n,
                None => Vec::new(),
            };
            let hv = chars_of(h.artist_name.as_str());
            let artist = if is_generic_artist_dir(hv.as_slice()) {
                string_of(artist_from_album_folder(album_component.as_slice()).as_slice())
            } else {
                h.artist_name
            };
            let title = match h.track_title {
                Some(t) => t,
                None => {
                    let n = or_default_exec(nth_name_exec(pv.as_slice(), 0), "Unknown Title");
                    let stem = stem_of_name_exec(n.as_slice());
                    parse_track_file_stem(string_of(stem.as_slice()).as_str()).1
                },
            };
            tags_with(title, artist, h.album_title, h.track_number, year_to_u32(h.year))
        },
        None => {
            let stem = match nth_name_exec(pv.as_slice(), 0) {
                Some(n) => stem_of_name_exec(n.as_slice()),
                None => chars_of("Unknown Title"),
            };
            let (track_number, title) = parse_track_file_stem(string_of(stem.as_slice()).as_str());
            let album_folder = or_default_exec(nth_name_exec(pv.as_slice(), 1), "Unknown Album");
            let (year, album_title) = parse_album_dir_component(
                string_of(album_folder.as_slice()).as_str(),
            );
            let artist = match nth_name_exec(pv.as_slice(), 2) {
                Some(a) => if !is_generic_artist_dir(a.as_slice()) {
                    string_of(a.as_slice())
                } else {
                    string_of(artist_from_album_folder(album_folder.as_slice()).as_slice())
                },
                None => string_of(artist_from_album_folder(album_folder.as_slice()).as_slice()),
            };
            tags_with(title, artist, album_title, track_number, year_to_u32(year))
        },
    }
}

/// Title from a file name alone (`03 - Song.flac` → `Song`).
pub fn path_file_title(path: &str) -> (r: String)
    ensures
        r@ == track_stem_spec(
            stem_of_name(or_default(nth_name(components(path@), 0), "Unknown Title"@)),
        ).1,
{
    let pv = chars_of(path);
    let n = or_default_exec(nth_name_exec(pv.as_slice(), 0), "Unknown Title");
    let stem = stem_of_name_exec(n.as_slice());
    parse_track_file_stem(string_of(stem.as_slice()).as_str()).1
}

pub open spec fn patched(p: Option<String>, old: Option<String>) -> Option<Seq<char>> {
    match p {
        Some(s) => Some(s@),
        None => opt_view(old),
    }
}

/// What `apply_album_patch` returns: album-wide fields replaced, per-track
/// fields kept; an empty genre clears it.
pub open spec fn album_patch_spec(t: TrackTags, p: AlbumTagsPatch) -> TagsView {
    let v = t.tags_view();
    TagsView {
        artist: match p.artist {
            Some(a) => a@,
            None => v.artist,
        },
        album: match p.album {
            Some(a) => a@,
            None => v.album,
        },
        year: match p.year {
            Some(y) => Some(y),
            None => v.year,
        },
        genre: match p.genre {
            Some(g) => if g@.len() == 0 {
                None
            } else {
                Some(g@)
            },
            None => v.genre,
        },
        track_total: match p.track_total {
            Some(n) => Some(n),
            None => v.track_total,
        },
        disc_total: match p.disc_total {
            Some(n) => Some(n),
            None => v.disc_total,
        },
        ..v
    }
}

pub fn apply_album_patch(tags: &TrackTags, patch: &AlbumTagsPatch) -> (r: TrackTags)
    ensures
        r.tags_view() == album_patch_spec(*tags, *patch),
{
    let mut out = copy_tags(tags);
    if let Some(artist) = &patch.artist {
        out.artist = artist.clone();
    }
    if let Some(album) = &patch.album {
        out.album = album.clone();
    }
    if let Some(year) = patch.year {
        out.year = Some(year);
    }
    if let Some(genre) = &patch.genre {
        let g = chars_of(genre.as_str());
        out.genre = if g.len() == 0 {
            None
        } else {
            Some(genre.clone())
        };
    }
    if let Some(n) = patch.track_total {
        out.track_total = Some(n);
    }
    if let Some(n) = patch.disc_total {
        out.disc_total = Some(n);
    }
    out
}

/// What `apply_patch` returns: each field present in the patch replaces the
/// track's, the others are kept.
pub open spec fn track_patch_spec(t: TrackTags, p: TrackTagsPatch) -> TagsView {
    let v = t.tags_view();
    TagsView {
        title: match p.title {
            Some(s) => s@,
            None => v.title,
        },
        artist: match p.artist {
            Some(s) => s@,
            None => v.artist,
        },
        album: match p.album {
            Some(s) => s@,
            None => v.album,
        },
        track_number: match p.track_number {
            Some(n) => Some(n),
            None => v.track_number,
        },
        year: match p.year {
            Some(n) => Some(n),
            None => v.year,
        },
        disc_number: match p.disc_number {
            Some(n) => Some(n),
            None => v.disc_number,
        },
        genre: patched(p.genre, t.genre),
        ..v
    }
}

fn pick(p: &Option<String>, old: &String) -> (r: String)
    ensures
        r@ == (match p {
            Some(s) => s@,
            None => old@,
        }),
{
    match p {
        Some(s) => s.clone(),
        None => old.clone(),
    }
}

fn pick_opt(p: &Option<String>, old: &Option<String>) -> (r: Option<String>)
    ensures
        opt_view(r) == patched(*p, *old),
{
    match p {
        Some(s) => Some(s.clone()),
        None => clone_opt(old),
    }
}

fn or_u32(p: Option<u32>, old: Option<u32>) -> (r: Option<u32>)
    ensures
        r == (match p {
            Some(n) => Some(n),
            None => old,
        }),
{
    match p {
        Some(n) => Some(n),
        None => old,
    }
}

pub fn apply_patch(tags: &TrackTags, patch: &TrackTagsPatch) -> (r: TrackTags)
    ensures
        r.tags_view() == track_patch_spec(*tags, *patch),
{
    TrackTags {
        title: pick(&patch.title, &tags.title),
        artist: pick(&patch.artist, &tags.artist),
        album: pick(&patch.album, &tags.album),
        track_number: or_u32(patch.track_number, tags.track_number),
        year: or_u32(patch.year, tags.year),
        disc_number: or_u32(patch.disc_number, tags.disc_number),
        track_total: tags.track_total,
        disc_total: tags.disc_total,
        genre: pick_opt(&patch.genre, &tags.genre),
        duration_sec: tags.duration_sec,
        qobuz_track_id: tags.qobuz_track_id,
        qobuz_album_id: tags.qobuz_album_id,
        label: clone_opt(&tags.label),
        isrc: clone_opt(&tags.isrc),
        composer: clone_opt(&tags.composer),
    }
}


/// The audio files the library indexes are exactly those whose lower-cased
/// extension is flac, mp3, m4a, aac, ogg, opus, wav, aiff, aif, wv or ape.
pub proof fn lemma_audio_extensions(path: Seq<char>)
    ensures
        is_audio_file_spec(path) <==> (extension_lower(path) matches Some(e) && set![
            "flac"@,
            "mp3"@,
            "m4a"@,
            "aac"@,
            "ogg"@,
            "opus"@,
            "wav"@,
            "aiff"@,
            "aif"@,
            "wv"@,
            "ape"@,
        ].contains(e)),
{
}

/// The content type served for each audio extension: FLAC, MPEG, MP4, AAC,
/// Ogg, Opus, WAV and AIFF by their own types, anything else as bytes.
pub proof fn lemma_audio_content_types(path: Seq<char>)
    ensures
        ({
            let t = audio_content_type_spec(path);
            match extension_lower(path) {
                Some(e) => {
                    &&& e == "flac"@ ==> t == "audio/flac"@
                    &&& e == "mp3"@ ==> t == "audio/mpeg"@
                    &&& e == "m4a"@ ==> t == "audio/mp4"@
                    &&& e == "aac"@ ==> t == "audio/aac"@
                    &&& e == "ogg"@ ==> t == "audio/ogg"@
                    &&& e == "opus"@ ==> t == "audio/opus"@
                    &&& e == "wav"@ ==> t == "audio/wav"@
                    &&& (e == "aiff"@ || e == "aif"@) ==> t == "audio/aiff"@
                    &&& !set!["flac"@, "mp3"@, "m4a"@, "aac"@, "ogg"@, "opus"@, "wav"@, "aiff"@, "aif"@].contains(e)
                        ==> t == "application/octet-stream"@
                },
                None => t == "application/octet-stream"@,
            }
        }),
{
    reveal_strlit("flac");
    assert("flac"@.len() == 4 && "flac"@[0] == 'f' && "flac"@[1] == 'l');
    reveal_strlit("mp3");
    assert("mp3"@.len() == 3 && "mp3"@[0] == 'm' && "mp3"@[1] == 'p');
    reveal_strlit("m4a");
    assert("m4a"@.len() == 3 && "m4a"@[0] == 'm' && "m4a"@[1] == '4');
    reveal_strlit("aac");
    assert("aac"@.len() == 3 && "aac"@[0] == 'a' && "aac"@[1] == 'a');
    reveal_strlit("ogg");
    assert("ogg"@.len() == 3 && "ogg"@[0] == 'o' && "ogg"@[1] == 'g');
    reveal_strlit("opus");
    assert("opus"@.len() == 4 && "opus"@[0] == 'o' && "opus"@[1] == 'p');
    reveal_strlit("wav");
    assert("wav"@.len() == 3 && "wav"@[0] == 'w' && "wav"@[1] == 'a');
    reveal_strlit("aiff");
    assert("aiff"@.len() == 4 && "aiff"@[0] == 'a' && "aiff"@[1] == 'i');
    reveal_strlit("aif");
    assert("aif"@.len() == 3 && "aif"@[0] == 'a' && "aif"@[1] == 'i');
}

/// Tags read from a path with library hints for its relative path are the
/// hints: the album title, the track number, the year of the album folder
/// (`{year} - {album}`) and the hinted title; the fields a path cannot give
/// are empty. Without hints, the album folder of the path itself gives the
/// album title and the year.
pub proof fn lemma_tags_from_path_hints(path: Seq<char>, rel: Option<Seq<char>>)
    ensures
        ({
            let t = tags_from_path_spec(path, rel);
            let hints = match rel {
                Some(r) => path_hints_spec(r),
                None => None,
            };
            &&& hints matches Some(h) ==> {
                &&& t.album == h.album_title
                &&& t.track_number == h.track_number
                &&& (h.year matches Some(y) ==> t.year == Some(y as u32))
                &&& (h.year is None ==> t.year is None)
                &&& (h.track_title matches Some(x) ==> t.title == x)
                &&& (!is_generic_artist_dir_spec(h.artist_name) ==> t.artist == h.artist_name)
            }
            &&& hints is None ==> {
                let folder = match nth_name(components(path), 1) {
                    Some(f) => f,
                    None => "Unknown Album"@,
                };
                &&& t.album == album_dir_spec(folder).1
                &&& (album_dir_spec(folder).0 matches Some(y) ==> t.year == Some(y as u32))
                &&& (album_dir_spec(folder).0 is None ==> t.year is None)
                &&& (nth_name(components(path), 0) matches Some(f) ==> t.track_number == track_stem_spec(
                    stem_of_name(f),
                ).0 && t.title == track_stem_spec(stem_of_name(f)).1)
                &&& (nth_name(components(path), 2) matches Some(a) ==> (!is_generic_artist_dir_spec(a)
                    ==> t.artist == a))
            }
            &&& t.disc_number is None && t.track_total is None && t.disc_total is None
            &&& t.genre is None && t.duration_sec is None && t.label is None && t.isrc is None
            &&& t.composer is None && t.qobuz_track_id is None && t.qobuz_album_id is None
        }),
{
}

/// A track patch sets exactly the fields it holds: each field given in the
/// patch is the result's, each field it leaves out keeps the track's value
/// (an empty genre is kept as given), and the fields a patch cannot hold
/// never change.
pub proof fn lemma_track_patch_fields(t: TrackTags, p: TrackTagsPatch)
    ensures
        ({
            let r = track_patch_spec(t, p);
            &&& (p.title matches Some(x) ==> r.title == x@) && (p.title is None ==> r.title == t.title@)
            &&& (p.artist matches Some(x) ==> r.artist == x@) && (p.artist is None ==> r.artist == t.artist@)
            &&& (p.album matches Some(x) ==> r.album == x@) && (p.album is None ==> r.album == t.album@)
            &&& (p.track_number matches Some(n) ==> r.track_number == Some(n)) && (p.track_number is None
                ==> r.track_number == t.track_number)
            &&& (p.year matches Some(y) ==> r.year == Some(y)) && (p.year is None ==> r.year == t.year)
            &&& (p.disc_number matches Some(n) ==> r.disc_number == Some(n)) && (p.disc_number is None
                ==> r.disc_number == t.disc_number)
            &&& (p.genre matches Some(g) ==> r.genre == Some(g@)) && (p.genre is None ==> r.genre
                == opt_view(t.genre))
            &&& r.track_total == t.track_total && r.disc_total == t.disc_total
            &&& r.duration_sec == t.duration_sec
            &&& r.qobuz_track_id == t.qobuz_track_id && r.qobuz_album_id == t.qobuz_album_id
            &&& r.label == opt_view(t.label) && r.isrc == opt_view(t.isrc) && r.composer == opt_view(t.composer)
        }),
{
}

/// An album patch sets the album-wide fields it holds (an empty genre
/// clears the genre) and keeps every other field of the track.
pub proof fn lemma_album_patch_fields(t: TrackTags, p: AlbumTagsPatch)
    ensures
        ({
            let r = album_patch_spec(t, p);
            &&& (p.artist matches Some(x) ==> r.artist == x@) && (p.artist is None ==> r.artist == t.artist@)
            &&& (p.album matches Some(x) ==> r.album == x@) && (p.album is None ==> r.album == t.album@)
            &&& (p.year matches Some(y) ==> r.year == Some(y)) && (p.year is None ==> r.year == t.year)
            &&& (p.genre matches Some(g) ==> (g@.len() == 0 ==> r.genre is None) && (g@.len() > 0 ==> r.genre
                == Some(g@))) && (p.genre is None ==> r.genre == opt_view(t.genre))
            &&& (p.track_total matches Some(n) ==> r.track_total == Some(n)) && (p.track_total is None
                ==> r.track_total == t.track_total)
            &&& (p.disc_total matches Some(n) ==> r.disc_total == Some(n)) && (p.disc_total is None
                ==> r.disc_total == t.disc_total)
            &&& r.title == t.title@ && r.track_number == t.track_number && r.disc_number == t.disc_number
            &&& r.duration_sec == t.duration_sec
            &&& r.qobuz_track_id == t.qobuz_track_id && r.qobuz_album_id == t.qobuz_album_id
            &&& r.label == opt_view(t.label) && r.isrc == opt_view(t.isrc) && r.composer == opt_view(t.composer)
        }),
{
}

} // verus!
