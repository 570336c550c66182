//! Reading and writing track tags: how the fields of an audio file's tag
//! become `TrackTags`, and which fields a write sets. The tag library does
//! the file access; these functions decide what is read and written.

use vstd::prelude::*;

use crate::error::ApiError;
use crate::library::tags::{opt_view, tags_from_path, tags_from_path_spec, TagsView, TrackTags};
use crate::text::{
    append_chars, chars_of, dec_nat, fmt_u64, is_ws, is_ws_char, parse_u64, parse_u64_spec,
    slice_of, starts_with, starts_with_lit, str_to_string, string_of, trim, trim_chars,
};

verus! {

/// The fields of an audio file's tag that the library reads or writes
/// (title, artist, album, numbers, genre, comment, description, label,
/// ISRC and composer), as the tag library hands them over.
#[derive(Debug, Clone, Default)]
pub struct TagFields {
    pub title: Option<String>,
    pub artist: Option<String>,
    pub album: Option<String>,
    pub track: Option<u32>,
    pub year: Option<u32>,
    pub disk: Option<u32>,
    pub track_total: Option<u32>,
    pub disk_total: Option<u32>,
    pub genre: Option<String>,
    pub comment: Option<String>,
    pub description: Option<String>,
    pub label: Option<String>,
    pub isrc: Option<String>,
    pub composer: Option<String>,
}

/// Index of the first whitespace character.
pub open spec fn first_ws(s: Seq<char>) -> Option<int>
    decreases s.len(),
{
    if s.len() == 0 {
        None
    } else if is_ws(s[0]) {
        Some(0)
    } else {
        match first_ws(s.drop_first()) {
            Some(i) => Some(i + 1),
            None => None,
        }
    }
}

pub proof fn lemma_first_ws(s: Seq<char>)
    ensures
        first_ws(s) matches Some(i) ==> 0 <= i < s.len() && is_ws(s[i]) && forall|j: int|
            0 <= j < i ==> !is_ws(#[trigger] s[j]),
        first_ws(s) is None ==> forall|j: int| 0 <= j < s.len() ==> !is_ws(#[trigger] s[j]),
    decreases s.len(),
{
    if s.len() > 0 {
        lemma_first_ws(s.drop_first());
        if !is_ws(s[0]) {
            assert forall|j: int| 1 <= j < s.len() implies s[j] == s.drop_first()[j - 1] by {}
        }
    }
}

proof fn lemma_first_ws_at(s: Seq<char>, k: int)
    requires
        0 <= k < s.len(),
        is_ws(s[k]),
        forall|j: int| 0 <= j < k ==> !is_ws(#[trigger] s[j]),
    ensures
        first_ws(s) == Some(k),
    decreases k,
{
    if k > 0 {
        assert forall|j: int| 0 <= j < k - 1 implies !is_ws(#[trigger] s.drop_first()[j]) by {
            assert(s.drop_first()[j] == s[j + 1]);
        }
        lemma_first_ws_at(s.drop_first(), k - 1);
    }
}

/// The whitespace-separated words of `s` (`str::split_whitespace`).
pub open spec fn words(s: Seq<char>) -> Seq<Seq<char>>
    decreases s.len(),
{
    match first_ws(s) {
        Some(i) => {
            proof {
                lemma_first_ws(s);
            }
            let rest = words(s.subrange(i + 1, s.len() as int));
            if i == 0 {
                rest
            } else {
                seq![s.subrange(0, i)] + rest
            }
        },
        None => if s.len() == 0 {
            Seq::empty()
        } else {
            seq![s]
        },
    }
}

fn words_exec(v: &[char]) -> (r: Vec<Vec<char>>)
    ensures
        crate::text::deep(r@) == words(v@),
{
    let mut out: Vec<Vec<char>> = Vec::new();
    let mut start: usize = 0;
    let mut i: usize = 0;
    assert(v@.subrange(0, v.len() as int) =~= v@);
    while i < v.len()
        invariant
            start <= i <= v.len(),
            words(v@) == crate::text::deep(out@) + words(v@.subrange(start as int, v.len() as int)),
            forall|j: int| start <= j < i ==> !is_ws(#[trigger] v@[j]),
        decreases v.len() - i,
    {
        if is_ws_char(v[i]) {
            let ghost rest = v@.subrange(start as int, v.len() as int);
            proof {
                assert forall|j: int| 0 <= j < i - start implies !is_ws(#[trigger] rest[j]) by {
                    assert(rest[j] == v@[start + j]);
                }
                assert(rest[i - start] == v@[i as int]);
                lemma_first_ws_at(rest, i - start);
                assert(rest.subrange(i - start + 1, rest.len() as int) =~= v@.subrange(
                    i + 1,
                    v.len() as int,
                ));
            }
            if i > start {
                let piece = slice_of(v, start, i);
                proof {
                    assert(rest.subrange(0, i - start) =~= piece@);
                }
                let ghost before = out@;
                out.push(piece);
                proof {
                    assert(crate::text::deep(out@) =~= crate::text::deep(before) + seq![
                        rest.subrange(0, i - start),
                    ]);
                }
            }
            start = i + 1;
        }
        i += 1;
    }
    let ghost rest = v@.subrange(start as int, v.len() as int);
    proof {
        lemma_first_ws(rest);
        assert forall|j: int| 0 <= j < rest.len() implies !is_ws(#[trigger] rest[j]) by {
            assert(rest[j] == v@[start + j]);
        }
        if first_ws(rest) is Some {
            let k = first_ws(rest)->0;
            assert(!is_ws(rest[k]));
        }
    }
    if start < v.len() {
        let piece = slice_of(v, start, v.len());
        assert(piece@ =~= rest);
        let ghost before = out@;
        out.push(piece);
        proof {
            assert(crate::text::deep(out@) =~= crate::text::deep(before) + seq![rest]);
        }
    } else {
        assert(crate::text::deep(out@) + words(rest) =~= crate::text::deep(out@));
    }
    out
}

/// How a comment word updates the Qobuz ids read so far: a
/// `QOBUZ_TRACK_ID:`/`QOBUZ_ALBUM_ID:` word sets that id to the number after
/// the colon, or clears it when no number follows.
pub open spec fn read_id_word(ids: (Option<u64>, Option<u64>), w: Seq<char>) -> (
    Option<u64>,
    Option<u64>,
) {
    let t = if starts_with(w, "QOBUZ_TRACK_ID:"@) {
        parse_u64_spec(trim(w.skip(15)))
    } else {
        ids.0
    };
    let a = if starts_with(w, "QOBUZ_ALBUM_ID:"@) {
        parse_u64_spec(trim(w.skip(15)))
    } else {
        ids.1
    };
    (t, a)
}

pub open spec fn read_id_words(ids: (Option<u64>, Option<u64>), ws: Seq<Seq<char>>) -> (
    Option<u64>,
    Option<u64>,
)
    decreases ws.len(),
{
    if ws.len() == 0 {
        ids
    } else {
        read_id_words(read_id_word(ids, ws[0]), ws.drop_first())
    }
}

/// The Qobuz track and album ids a tag's comment and description record,
/// the later words winning.
pub open spec fn qobuz_ids_spec(comment: Option<Seq<char>>, description: Option<Seq<char>>) -> (
    Option<u64>,
    Option<u64>,
) {
    let after_comment = match comment {
        Some(c) => read_id_words((None, None), words(c)),
        None => (None, None),
    };
    match description {
        Some(d) => read_id_words(after_comment, words(d)),
        None => after_comment,
    }
}

fn read_ids_from(ids: (Option<u64>, Option<u64>), text: &str) -> (r: (Option<u64>, Option<u64>))
    ensures
        r == read_id_words(ids, words(text@)),
{
    let v = chars_of(text);
    let ws = words_exec(v.as_slice());
    let ghost w = crate::text::deep(ws@);
    let mut cur = ids;
    let mut i: usize = 0;
    assert(w.skip(0) =~= w);
    proof {
        reveal_strlit("QOBUZ_TRACK_ID:");
        reveal_strlit("QOBUZ_ALBUM_ID:");
    }
    while i < ws.len()
        invariant
            i <= ws@.len(),
            w == crate::text::deep(ws@),
            read_id_words(ids, w) == read_id_words(cur, w.skip(i as int)),
            "QOBUZ_TRACK_ID:"@.len() == 15,
            "QOBUZ_ALBUM_ID:"@.len() == 15,
        decreases ws.len() - i,
    {
        let word = ws[i].as_slice();
        assert(w.skip(i as int)[0] == ws@[i as int]@);
        assert(w.skip(i as int).drop_first() =~= w.skip(i + 1));
        let t = if starts_with_lit(word, "QOBUZ_TRACK_ID:") {
            let rest = slice_of(word, 15, word.len());
            assert(rest@ =~= ws@[i as int]@.skip(15));
            let tr = trim_chars(rest.as_slice());
            parse_u64(tr.as_slice())
        } else {
            cur.0
        };
        let a = if starts_with_lit(word, "QOBUZ_ALBUM_ID:") {
            let rest = slice_of(word, 15, word.len());
            assert(rest@ =~= ws@[i as int]@.skip(15));
            let tr = trim_chars(rest.as_slice());
            parse_u64(tr.as_slice())
        } else {
            cur.1
        };
        cur = (t, a);
        i += 1;
    }
    cur
}

/// The Qobuz ids recorded in a tag's comment and description.
pub fn parse_qobuz_ids(comment: Option<&str>, description: Option<&str>) -> (r: (
    Option<u64>,
    Option<u64>,
))
    ensures
        r == qobuz_ids_spec(
            match comment {
                Some(c) => Some(c@),
                None => None,
            },
            match description {
                Some(d) => Some(d@),
                None => None,
            },
        ),
{
    let after_comment = match comment {
        Some(c) => read_ids_from((None, None), c),
        None => (None, None),
    };
    match description {
        Some(d) => read_ids_from(after_comment, d),
        None => after_comment,
    }
}

/// A text field counts only when present and not empty.
pub open spec fn non_empty(o: Option<String>) -> Option<Seq<char>> {
    match o {
        Some(s) => if s@.len() > 0 {
            Some(s@)
        } else {
            None
        },
        None => None,
    }
}

fn tag_string(o: &Option<String>) -> (r: Option<String>)
    ensures
        opt_view(r) == non_empty(*o),
{
    match o {
        Some(s) => {
            if s.as_str().is_empty() {
                None
            } else {
                Some(s.clone())
            }
        },
        None => None,
    }
}

pub open spec fn text_or(o: Option<String>, d: Seq<char>) -> Seq<char> {
    match o {
        Some(s) => s@,
        None => d,
    }
}

pub open spec fn opt_str(o: Option<String>) -> Option<Seq<char>> {
    opt_view(o)
}

/// The track tags a file's tag gives: title, artist and album with
/// `Unknown …` defaults, the numbers and genre as stored, the Qobuz ids
/// from comment and description, non-empty label, ISRC and composer, and
/// the duration when it fits; without a tag, title to genre come from the
/// path.
pub open spec fn tags_from_fields_spec(path: Seq<char>, tag: Option<TagFields>, duration_secs: u64) -> TagsView {
    let ids = match tag {
        Some(t) => qobuz_ids_spec(opt_view(t.comment), opt_view(t.description)),
        None => (None, None),
    };
    let duration = if duration_secs <= u32::MAX {
        Some(duration_secs as u32)
    } else {
        None
    };
    let (label, isrc, composer) = match tag {
        Some(t) => (non_empty(t.label), non_empty(t.isrc), non_empty(t.composer)),
        None => (None, None, None),
    };
    let base = match tag {
        Some(t) => TagsView {
            title: text_or(t.title, "Unknown Title"@),
            artist: text_or(t.artist, "Unknown Artist"@),
            album: text_or(t.album, "Unknown Album"@),
            track_number: t.track,
            year: t.year,
            disc_number: t.disk,
            track_total: t.track_total,
            disc_total: t.disk_total,
            genre: opt_view(t.genre),
            duration_sec: None,
            qobuz_track_id: None,
            qobuz_album_id: None,
            label: None,
            isrc: None,
            composer: None,
        },
        None => tags_from_path_spec(path, None),
    };
    TagsView {
        duration_sec: duration,
        qobuz_track_id: ids.0,
        qobuz_album_id: ids.1,
        label,
        isrc,
        composer,
        ..base
    }
}

fn text_or_exec(o: &Option<String>, d: &str) -> (r: String)
    ensures
        r@ == text_or(*o, d@),
{
    match o {
        Some(s) => s.clone(),
        None => str_to_string(d),
    }
}

fn opt_as_str(o: &Option<String>) -> (r: Option<&str>)
    ensures
        match *o {
            Some(s) => r matches Some(t) && t@ == s@,
            None => r is None,
        },
{
    match o {
        Some(s) => Some(s.as_str()),
        None => None,
    }
}

/// Track tags from a file's tag fields (`read_tags_lofty` once the file is
/// read): see `tags_from_fields_spec`.
pub fn track_tags_from_fields(path: &str, tag: Option<&TagFields>, duration_secs: u64) -> (r:
    TrackTags)
    ensures
        r.tags_view() == tags_from_fields_spec(
            path@,
            match tag {
                Some(t) => Some(*t),
                None => None,
            },
            duration_secs,
        ),
{
    let duration_sec: Option<u32> = if duration_secs <= 4294967295u64 {
        Some(duration_secs as u32)
    } else {
        None
    };
    match tag {
        Some(t) => {
            let (qobuz_track_id, qobuz_album_id) = parse_qobuz_ids(
                opt_as_str(&t.comment),
                opt_as_str(&t.description),
            );
            TrackTags {
                title: text_or_exec(&t.title, "Unknown Title"),
                artist: text_or_exec(&t.artist, "Unknown Artist"),
                album: text_or_exec(&t.album, "Unknown Album"),
                track_number: t.track,
                year: t.year,
                disc_number: t.disk,
                track_total: t.track_total,
                disc_total: t.disk_total,
                genre: crate::library::tags::clone_opt(&t.genre),
                duration_sec,
                qobuz_track_id,
                qobuz_album_id,
                label: tag_string(&t.label),
                isrc: tag_string(&t.isrc),
                composer: tag_string(&t.composer),
            }
        },
        None => {
            let f = tags_from_path(path, None);
            TrackTags {
                duration_sec,
                qobuz_track_id: None,
                qobuz_album_id: None,
                label: None,
                isrc: None,
                composer: None,
                ..f
            }
        },
    }
}

/// Tags for indexing a file: what its tag says when the tag library could
/// read it (`read` holds the tag, if the file has one, and the duration),
/// else the fallback from its path.
pub fn read_tags_with_rel(
    path: &str,
    path_rel: Option<&str>,
    read: Result<(Option<TagFields>, u64), ApiError>,
) -> (r: Result<TrackTags, ApiError>)
    ensures
        match read {
            Ok((tag, d)) => r matches Ok(t) && t.tags_view() == tags_from_fields_spec(path@, tag, d),
            Err(_) => r matches Ok(t) && t.tags_view() == tags_from_path_spec(
                path@,
                match path_rel {
                    Some(s) => Some(s@),
                    None => None,
                },
            ),
        },
{
    match read {
        Ok((tag, d)) => Ok(
            match &tag {
                Some(t) => track_tags_from_fields(path, Some(t), d),
                None => track_tags_from_fields(path, None, d),
            },
        ),
        Err(_) => Ok(tags_from_path(path, path_rel)),
    }
}

/// `read_tags_with_rel` without a library-relative path.
pub fn read_tags(path: &str, read: Result<(Option<TagFields>, u64), ApiError>) -> (r: Result<
    TrackTags,
    ApiError,
>)
    ensures
        match read {
            Ok((tag, d)) => r matches Ok(t) && t.tags_view() == tags_from_fields_spec(path@, tag, d),
            Err(_) => r matches Ok(t) && t.tags_view() == tags_from_path_spec(path@, None),
        },
{
    read_tags_with_rel(path, None, read)
}

/// What a write does to the genre: set it, remove it, or leave it.
#[derive(Debug, Clone)]
pub enum GenreWrite {
    Assign(String),
    Remove,
    Keep,
}

/// The fields a tag write sets (`write_tags` before the file is saved):
/// title, artist and album always; numbers that are known; the genre as
/// `genre` says; the Qobuz ids comment when there are ids; label, ISRC and
/// composer when not empty. Fields left `None` keep what the tag has.
#[derive(Debug, Clone)]
pub struct TagWritePlan {
    pub title: String,
    pub artist: String,
    pub album: String,
    pub track: Option<u32>,
    pub year: Option<u32>,
    pub disk: Option<u32>,
    pub track_total: Option<u32>,
    pub disk_total: Option<u32>,
    pub genre: GenreWrite,
    pub comment: Option<String>,
    pub label: Option<String>,
    pub isrc: Option<String>,
    pub composer: Option<String>,
}

/// The comment recording Qobuz ids: `QOBUZ_TRACK_ID:n` and
/// `QOBUZ_ALBUM_ID:m`, those that are known, separated by a space.
pub open spec fn qobuz_comment_spec(track_id: Option<u64>, album_id: Option<u64>) -> Seq<char> {
    let t = match track_id {
        Some(n) => "QOBUZ_TRACK_ID:"@ + dec_nat(n as nat),
        None => Seq::empty(),
    };
    match album_id {
        Some(a) => if t.len() > 0 {
            t + seq![' '] + "QOBUZ_ALBUM_ID:"@ + dec_nat(a as nat)
        } else {
            "QOBUZ_ALBUM_ID:"@ + dec_nat(a as nat)
        },
        None => t,
    }
}

pub fn qobuz_comment(track_id: Option<u64>, album_id: Option<u64>) -> (r: String)
    ensures
        r@ == qobuz_comment_spec(track_id, album_id),
{
    let mut v: Vec<char> = Vec::new();
    if let Some(n) = track_id {
        let p = chars_of("QOBUZ_TRACK_ID:");
        append_chars(&mut v, p.as_slice());
        let d = fmt_u64(n);
        append_chars(&mut v, d.as_slice());
        proof {
            reveal_strlit("QOBUZ_TRACK_ID:");
        }
    }
    if let Some(a) = album_id {
        if v.len() > 0 {
            v.push(' ');
        }
        let p = chars_of("QOBUZ_ALBUM_ID:");
        append_chars(&mut v, p.as_slice());
        let d = fmt_u64(a);
        append_chars(&mut v, d.as_slice());
    }
    string_of(v.as_slice())
}

pub open spec fn genre_write_spec(g: Option<String>) -> Option<Option<Seq<char>>> {
    match g {
        Some(s) => if s@.len() > 0 {
            Some(Some(s@))
        } else {
            Some(None)
        },
        None => None,
    }
}

pub open spec fn genre_view(g: GenreWrite) -> Option<Option<Seq<char>>> {
    match g {
        GenreWrite::Assign(s) => Some(Some(s@)),
        GenreWrite::Remove => Some(None),
        GenreWrite::Keep => None,
    }
}

/// The write plan for `tags`, as `TagWritePlan` describes it.
pub fn tag_write_plan(tags: &TrackTags) -> (r: TagWritePlan)
    ensures
        plan_of(r, *tags),
{
    let genre = match &tags.genre {
        Some(g) => {
            if g.as_str().is_empty() {
                GenreWrite::Remove
            } else {
                GenreWrite::Assign(g.clone())
            }
        },
        None => GenreWrite::Keep,
    };
    let comment = if tags.qobuz_track_id.is_some() || tags.qobuz_album_id.is_some() {
        let c = qobuz_comment(tags.qobuz_track_id, tags.qobuz_album_id);
        Some(c)
    } else {
        None
    };
    TagWritePlan {
        title: tags.title.clone(),
        artist: tags.artist.clone(),
        album: tags.album.clone(),
        track: tags.track_number,
        year: tags.year,
        disk: tags.disc_number,
        track_total: tags.track_total,
        disk_total: tags.disc_total,
        genre,
        comment,
        label: tag_string(&tags.label),
        isrc: tag_string(&tags.isrc),
        composer: tag_string(&tags.composer),
    }
}

/// The fields of tag `before` once `plan` is written into it.
pub open spec fn after_write(before: TagFields, plan: TagWritePlan) -> TagFields {
    TagFields {
        title: Some(plan.title),
        artist: Some(plan.artist),
        album: Some(plan.album),
        track: if plan.track is Some { plan.track } else { before.track },
        year: if plan.year is Some { plan.year } else { before.year },
        disk: if plan.disk is Some { plan.disk } else { before.disk },
        track_total: if plan.track_total is Some { plan.track_total } else { before.track_total },
        disk_total: if plan.disk_total is Some { plan.disk_total } else { before.disk_total },
        genre: match plan.genre {
            GenreWrite::Assign(g) => Some(g),
            GenreWrite::Remove => None,
            GenreWrite::Keep => before.genre,
        },
        comment: if plan.comment is Some { plan.comment } else { before.comment },
        description: before.description,
        label: if plan.label is Some { plan.label } else { before.label },
        isrc: if plan.isrc is Some { plan.isrc } else { before.isrc },
        composer: if plan.composer is Some { plan.composer } else { before.composer },
    }
}

/// A tag with none of the fields set.
pub open spec fn blank_fields() -> TagFields {
    TagFields {
        title: None,
        artist: None,
        album: None,
        track: None,
        year: None,
        disk: None,
        track_total: None,
        disk_total: None,
        genre: None,
        comment: None,
        description: None,
        label: None,
        isrc: None,
        composer: None,
    }
}

/// Tags whose text fields are all either absent or non-empty: what a tag
/// can hold once written.
pub open spec fn tags_storable(t: TrackTags) -> bool {
    non_empty(t.genre) == opt_view(t.genre) && non_empty(t.label) == opt_view(t.label)
        && non_empty(t.isrc) == opt_view(t.isrc) && non_empty(t.composer) == opt_view(t.composer)
}

/// `plan` is the write plan of `t` (the contract of `tag_write_plan`).
pub open spec fn plan_of(plan: TagWritePlan, t: TrackTags) -> bool {
    &&& plan.title@ == t.title@ && plan.artist@ == t.artist@ && plan.album@ == t.album@
    &&& plan.track == t.track_number && plan.year == t.year && plan.disk == t.disc_number
    &&& plan.track_total == t.track_total && plan.disk_total == t.disc_total
    &&& genre_view(plan.genre) == genre_write_spec(t.genre)
    &&& opt_view(plan.comment) == (if t.qobuz_track_id is Some || t.qobuz_album_id is Some {
        Some(qobuz_comment_spec(t.qobuz_track_id, t.qobuz_album_id))
    } else {
        None
    })
    &&& opt_view(plan.label) == non_empty(t.label)
    &&& opt_view(plan.isrc) == non_empty(t.isrc)
    &&& opt_view(plan.composer) == non_empty(t.composer)
}

pub proof fn lemma_dec_digits(n: nat)
    ensures
        dec_nat(n).len() > 0,
        crate::text::all_digits(dec_nat(n)),
        crate::text::digits_value(dec_nat(n)) == n,
    decreases n,
{
    let dc = crate::text::digit_char(n % 10);
    assert((dc as u32) == ('0' as u32) + n % 10);
    assert(crate::text::digit_value(dc) == n % 10);
    if n < 10 {
        let s = dec_nat(n);
        assert(s.drop_last() =~= Seq::<char>::empty());
        assert(s.last() == dc);
        assert(crate::text::digits_value(s.drop_last()) == 0);
        assert(crate::text::digits_value(s) == crate::text::digits_value(s.drop_last()) * 10
            + crate::text::digit_value(s.last()));
    }
    if n >= 10 {
        lemma_dec_digits(n / 10);
        let d = dec_nat(n / 10);
        let s = dec_nat(n);
        assert(s.drop_last() =~= d);
        assert(s.last() == dc);
        assert(crate::text::digits_value(s) == crate::text::digits_value(d) * 10
            + crate::text::digit_value(dc));
        assert((n / 10) * 10 + n % 10 == n) by (nonlinear_arith);
        assert forall|i: int| 0 <= i < s.len() implies crate::text::is_digit(#[trigger] s[i]) by {
            if i < d.len() {
                assert(s[i] == d[i]);
            }
        }
    }
}

proof fn lemma_no_ws_trim(s: Seq<char>)
    requires
        s.len() > 0,
        !is_ws(s[0]),
        !is_ws(s.last()),
    ensures
        trim(s) == s,
{
}

proof fn lemma_dec_parses(n: u64)
    ensures
        parse_u64_spec(trim(dec_nat(n as nat))) == Some(n),
        forall|i: int| 0 <= i < dec_nat(n as nat).len() ==> !is_ws(#[trigger] dec_nat(n as nat)[i]),
{
    let s = dec_nat(n as nat);
    lemma_dec_digits(n as nat);
    assert(crate::text::is_digit(s[0]));
    assert(crate::text::is_digit(s.last()));
    lemma_no_ws_trim(s);
    assert(crate::text::unsigned_body(s) == Some(s));
}

proof fn lemma_words_single(x: Seq<char>)
    requires
        x.len() > 0,
        forall|i: int| 0 <= i < x.len() ==> !is_ws(#[trigger] x[i]),
    ensures
        words(x) == seq![x],
{
    lemma_first_ws(x);
}

proof fn lemma_words_pair(x: Seq<char>, y: Seq<char>)
    requires
        x.len() > 0,
        forall|i: int| 0 <= i < x.len() ==> !is_ws(#[trigger] x[i]),
    ensures
        words(x + seq![' '] + y) == seq![x] + words(y),
{
    let s = x + seq![' '] + y;
    assert forall|j: int| 0 <= j < x.len() implies !is_ws(#[trigger] s[j]) by {
        assert(s[j] == x[j]);
    }
    assert(is_ws(s[x.len() as int]));
    lemma_first_ws_at(s, x.len() as int);
    assert(s.subrange(0, x.len() as int) =~= x);
    assert(s.subrange(x.len() as int + 1, s.len() as int) =~= y);
}

proof fn lemma_id_word(prefix: Seq<char>, n: u64, ids: (Option<u64>, Option<u64>))
    requires
        prefix == "QOBUZ_TRACK_ID:"@ || prefix == "QOBUZ_ALBUM_ID:"@,
    ensures
        ({
            let w = prefix + dec_nat(n as nat);
            &&& w.len() > 0
            &&& forall|i: int| 0 <= i < w.len() ==> !is_ws(#[trigger] w[i])
            &&& prefix == "QOBUZ_TRACK_ID:"@ ==> read_id_word(ids, w) == (Some(n), ids.1)
            &&& prefix == "QOBUZ_ALBUM_ID:"@ ==> read_id_word(ids, w) == (ids.0, Some(n))
        }),
{
    reveal_strlit("QOBUZ_TRACK_ID:");
    reveal_strlit("QOBUZ_ALBUM_ID:");
    let w = prefix + dec_nat(n as nat);
    lemma_dec_parses(n);
    assert(w.skip(15) =~= dec_nat(n as nat));
    assert(w.take(15) =~= prefix);
    assert forall|i: int| 0 <= i < w.len() implies !is_ws(#[trigger] w[i]) by {
        if i >= 15 {
            assert(w[i] == dec_nat(n as nat)[i - 15]);
        }
    }
    if prefix == "QOBUZ_TRACK_ID:"@ {
        assert(w[6] != "QOBUZ_ALBUM_ID:"@[6]);
        assert(w.take(15)[6] == w[6]);
    } else {
        assert(w[6] != "QOBUZ_TRACK_ID:"@[6]);
        assert(w.take(15)[6] == w[6]);
    }
}

proof fn lemma_read_words_one(ids: (Option<u64>, Option<u64>), w: Seq<char>)
    ensures
        read_id_words(ids, seq![w]) == read_id_word(ids, w),
{
    let e = Seq::<Seq<char>>::empty();
    assert(seq![w].drop_first() =~= e);
    assert(seq![w][0] == w);
    assert(read_id_words(read_id_word(ids, w), e) == read_id_word(ids, w));
    assert(read_id_words(ids, seq![w]) == read_id_words(read_id_word(ids, w), e));
}

proof fn lemma_read_words_two(ids: (Option<u64>, Option<u64>), w1: Seq<char>, w2: Seq<char>)
    ensures
        read_id_words(ids, seq![w1, w2]) == read_id_word(read_id_word(ids, w1), w2),
{
    assert(seq![w1, w2].drop_first() =~= seq![w2]);
    lemma_read_words_one(read_id_word(ids, w1), w2);
}

/// The Qobuz ids comment reads back as the ids it was made from.
pub proof fn lemma_qobuz_comment_round_trip(track_id: Option<u64>, album_id: Option<u64>)
    requires
        track_id is Some || album_id is Some,
    ensures
        qobuz_ids_spec(Some(qobuz_comment_spec(track_id, album_id)), None) == (track_id, album_id),
{
    reveal_strlit("QOBUZ_TRACK_ID:");
    reveal_strlit("QOBUZ_ALBUM_ID:");
    let none: (Option<u64>, Option<u64>) = (None, None);
    let c = qobuz_comment_spec(track_id, album_id);
    match (track_id, album_id) {
        (Some(t), Some(a)) => {
            let tw = "QOBUZ_TRACK_ID:"@ + dec_nat(t as nat);
            let aw = "QOBUZ_ALBUM_ID:"@ + dec_nat(a as nat);
            lemma_id_word("QOBUZ_TRACK_ID:"@, t, none);
            lemma_id_word("QOBUZ_ALBUM_ID:"@, a, (Some(t), None));
            assert(tw.len() > 0);
            assert(c =~= tw + seq![' '] + aw);
            lemma_words_pair(tw, aw);
            lemma_words_single(aw);
            assert(words(c) =~= seq![tw, aw]);
            lemma_read_words_two(none, tw, aw);
        },
        (Some(t), None) => {
            let tw = "QOBUZ_TRACK_ID:"@ + dec_nat(t as nat);
            lemma_id_word("QOBUZ_TRACK_ID:"@, t, none);
            lemma_words_single(tw);
            assert(c == tw);
            lemma_read_words_one(none, tw);
        },
        (None, Some(a)) => {
            let aw = "QOBUZ_ALBUM_ID:"@ + dec_nat(a as nat);
            lemma_id_word("QOBUZ_ALBUM_ID:"@, a, none);
            lemma_words_single(aw);
            assert(c =~= aw);
            lemma_read_words_one(none, aw);
        },
        (None, None) => {},
    }
}

/// Writing tags into a blank tag and reading them back gives the same
/// tags, with the duration the file reports.
pub proof fn lemma_write_then_read(path: Seq<char>, t: TrackTags, plan: TagWritePlan, d: u64)
    requires
        plan_of(plan, t),
        tags_storable(t),
    ensures
        tags_from_fields_spec(path, Some(after_write(blank_fields(), plan)), d) == (TagsView {
            duration_sec: if d <= u32::MAX {
                Some(d as u32)
            } else {
                None
            },
            ..t.tags_view()
        }),
{
    if t.qobuz_track_id is Some || t.qobuz_album_id is Some {
        lemma_qobuz_comment_round_trip(t.qobuz_track_id, t.qobuz_album_id);
    }
    let f = after_write(blank_fields(), plan);
    assert(opt_view(f.genre) == opt_view(t.genre));
    assert(non_empty(f.label) == opt_view(t.label));
    assert(non_empty(f.isrc) == opt_view(t.isrc));
    assert(non_empty(f.composer) == opt_view(t.composer));
}

} // verus!
