//! Discogs as a tag source: how its search results become candidates and
//! how a release, with its nested track list, becomes album metadata.

use vstd::prelude::*;

use crate::error::{is_message, ApiError};
use crate::integrations::types::{
    candidate_views, lemma_candidate_views_push, AlbumMetadataRelease, AlbumMetadataTrack,
    CandidateBasis, CandidateView,
};
use crate::library::tags::{clone_opt, opt_view};
use crate::text::{
    append_chars, ascii_lower, ascii_lower_chars, chars_is, chars_of, contains_lit, contains_seq,
    dec_nat, fmt_u64, parse_i32_spec, split_once, split_once_lit, starts_with, starts_with_lit,
    str_is, string_of, trim, trim_chars,
};

verus! {

/// Search results per page.
pub const DISCOGS_PER_PAGE: u32 = 15;

/// The token a Discogs integration is configured with, trimmed; it must not
/// be blank (`DiscogsProvider::new` before the HTTP client is built).
pub fn discogs_token(token: &str) -> (r: Result<String, ApiError>)
    ensures
        trim(token@).len() == 0 ==> (r matches Err(e) && is_message(
            e,
            "Discogs token is required"@,
        )),
        trim(token@).len() > 0 ==> (r matches Ok(t) && t@ == trim(token@)),
{
    let v = chars_of(token);
    let t = trim_chars(v.as_slice());
    if t.len() == 0 {
        return Err(ApiError::bad_request("Discogs token is required"));
    }
    Ok(string_of(t.as_slice()))
}

/// An entry of a release's track list: a track, a heading, or an index
/// grouping sub-tracks (the movements of a work).
#[derive(Debug)]
pub struct DiscogsTrack {
    pub title: String,
    pub position: Option<String>,
    pub type_: Option<String>,
    pub sub_tracks: Option<Vec<DiscogsTrack>>,
}

/// The entry's type, lower-cased; an entry without one is a track.
pub open spec fn track_kind(t: DiscogsTrack) -> Seq<char> {
    ascii_lower(
        match t.type_ {
            Some(s) => s@,
            None => "track"@,
        },
    )
}

/// Placeholder titles such as `[Bonus Album]` are not tracks.
pub open spec fn skipped_title(title: Seq<char>) -> bool {
    title.len() == 0 || (starts_with(title, "["@) && contains_seq(title, "Album"@))
}

pub open spec fn leaf(t: DiscogsTrack) -> Seq<(Seq<char>, Option<Seq<char>>)> {
    if skipped_title(t.title@) {
        Seq::empty()
    } else {
        seq![(t.title@, opt_view(t.position))]
    }
}

/// The playable tracks an entry stands for, in order: none for a heading,
/// those of its sub-tracks for an index or an entry that has sub-tracks,
/// else the entry itself unless its title is blank or a placeholder.
pub open spec fn playable(t: DiscogsTrack) -> Seq<(Seq<char>, Option<Seq<char>>)>
    decreases t,
{
    if track_kind(t) == "heading"@ {
        Seq::empty()
    } else if track_kind(t) == "index"@ {
        match t.sub_tracks {
            Some(subs) => playable_all(subs@),
            None => Seq::empty(),
        }
    } else {
        match t.sub_tracks {
            Some(subs) => if subs@.len() > 0 {
                playable_all(subs@)
            } else {
                leaf(t)
            },
            None => leaf(t),
        }
    }
}

/// The playable tracks of a track list.
pub open spec fn playable_all(ts: Seq<DiscogsTrack>) -> Seq<(Seq<char>, Option<Seq<char>>)>
    decreases ts,
{
    if ts.len() == 0 {
        Seq::empty()
    } else {
        playable_all(ts.drop_last()) + playable(ts.last())
    }
}

pub open spec fn entries(v: Seq<(String, Option<String>)>) -> Seq<(Seq<char>, Option<Seq<char>>)> {
    v.map_values(|p: (String, Option<String>)| (p.0@, opt_view(p.1)))
}

proof fn lemma_entries_push(v: Seq<(String, Option<String>)>, p: (String, Option<String>))
    ensures
        entries(v.push(p)) == entries(v).push((p.0@, opt_view(p.1))),
{
    assert(entries(v.push(p)) =~= entries(v).push((p.0@, opt_view(p.1))));
}

fn is_lit_lower(v: &[char], lit: &str) -> (r: bool)
    ensures
        r == (ascii_lower(v@) == lit@),
{
    let l = ascii_lower_chars(v);
    chars_is(l.as_slice(), lit)
}

fn push_all(out: &mut Vec<(String, Option<String>)>, ts: Vec<DiscogsTrack>)
    ensures
        entries(final(out)@) == entries(old(out)@) + playable_all(ts@),
    decreases ts@,
{
    if ts.len() == 0 {
        assert(entries(old(out)@) + playable_all(ts@) =~= entries(old(out)@));
        return;
    }
    let ghost all = ts@;
    let mut rest = ts;
    let last = rest.pop().unwrap();
    assert(rest@ =~= all.drop_last());
    assert(last == all.last());
    push_all(out, rest);
    let ghost mid = out@;
    push_playable(out, last);
    assert(entries(out@) =~= entries(old(out)@) + playable_all(all));
}

fn push_playable(out: &mut Vec<(String, Option<String>)>, t: DiscogsTrack)
    ensures
        entries(final(out)@) == entries(old(out)@) + playable(t),
    decreases t,
{
    let ghost whole = t;
    let kind: Vec<char> = match &t.type_ {
        Some(s) => chars_of(s.as_str()),
        None => chars_of("track"),
    };
    proof {
        reveal_strlit("track");
    }
    assert(ascii_lower(kind@) == track_kind(t));
    if is_lit_lower(kind.as_slice(), "heading") {
        assert(entries(old(out)@) + playable(whole) =~= entries(old(out)@));
        return;
    }
    let DiscogsTrack { title, position, type_, sub_tracks } = t;
    if is_lit_lower(kind.as_slice(), "index") {
        match sub_tracks {
            Some(subs) => {
                push_all(out, subs);
            },
            None => {
                assert(entries(old(out)@) + playable(whole) =~= entries(old(out)@));
            },
        }
        return;
    }
    match sub_tracks {
        Some(subs) => {
            if subs.len() > 0 {
                push_all(out, subs);
                return;
            }
        },
        None => {},
    }
    let tv = chars_of(title.as_str());
    proof {
        reveal_strlit("[");
    }
    if tv.len() == 0 || (starts_with_lit(tv.as_slice(), "[") && contains_lit(tv.as_slice(), "Album")) {
        assert(entries(old(out)@) + playable(whole) =~= entries(old(out)@));
        return;
    }
    let ghost before = out@;
    let p = (title, position);
    out.push(p);
    proof {
        lemma_entries_push(before, p);
    }
}

/// The playable tracks of a release's track list, index entries expanded
/// and headings skipped, so that movements match per-file rips.
pub fn flatten_discogs_tracklist(items: Vec<DiscogsTrack>) -> (r: Vec<(String, Option<String>)>)
    ensures
        entries(r@) == playable_all(items@),
{
    let mut out: Vec<(String, Option<String>)> = Vec::new();
    assert(entries(out@) =~= Seq::<(Seq<char>, Option<Seq<char>>)>::empty());
    push_all(&mut out, items);
    assert(entries(out@) =~= playable_all(items@));
    out
}

/// The styles that count, trimmed, blank ones dropped.
pub open spec fn kept_styles(ss: Seq<Seq<char>>) -> Seq<Seq<char>>
    decreases ss.len(),
{
    if ss.len() == 0 {
        Seq::empty()
    } else {
        let r = kept_styles(ss.drop_last());
        if trim(ss.last()).len() > 0 {
            r.push(trim(ss.last()))
        } else {
            r
        }
    }
}

/// `parts.join(sep)`.
pub open spec fn join_text(parts: Seq<Seq<char>>, sep: Seq<char>) -> Seq<char>
    decreases parts.len(),
{
    if parts.len() == 0 {
        Seq::empty()
    } else if parts.len() == 1 {
        parts[0]
    } else {
        join_text(parts.drop_last(), sep) + sep + parts.last()
    }
}

/// A release's genre: all its styles joined by `, `; none when there are
/// none.
pub open spec fn styles_genre_spec(styles: Option<Seq<Seq<char>>>) -> Option<Seq<char>> {
    match styles {
        None => None,
        Some(ss) => {
            let j = join_text(kept_styles(ss), ", "@);
            if j.len() == 0 {
                None
            } else {
                Some(j)
            }
        },
    }
}

pub open spec fn texts(v: Seq<String>) -> Seq<Seq<char>> {
    v.map_values(|s: String| s@)
}

pub fn styles_as_genre(styles: &Option<Vec<String>>) -> (r: Option<String>)
    ensures
        opt_view(r) == styles_genre_spec(
            match styles {
                Some(v) => Some(texts(v@)),
                None => None,
            },
        ),
{
    let v = match styles {
        Some(v) => v,
        None => {
            return None;
        },
    };
    let ghost ss = texts(v@);
    let mut out: Vec<char> = Vec::new();
    let mut count: usize = 0;
    let mut i: usize = 0;
    proof {
        reveal_strlit(", ");
    }
    while i < v.len()
        invariant
            i <= v.len(),
            ss == texts(v@),
            count == kept_styles(ss.take(i as int)).len(),
            count <= i,
            out@ == join_text(kept_styles(ss.take(i as int)), ", "@),
        decreases v.len() - i,
    {
        let ghost prev = ss.take(i as int);
        assert(ss.take(i + 1).drop_last() =~= prev);
        assert(ss.take(i + 1).last() == v@[i as int]@);
        let t = trim_chars(chars_of(v[i].as_str()).as_slice());
        if t.len() > 0 {
            let ghost k = kept_styles(prev);
            if count > 0 {
                out.push(',');
                out.push(' ');
            }
            append_chars(&mut out, t.as_slice());
            proof {
                reveal_strlit(", ");
                let k2 = k.push(trim(v@[i as int]@));
                assert(k2.drop_last() =~= k);
                if count > 0 {
                    assert(out@ =~= join_text(k, ", "@) + ", "@ + t@);
                } else {
                    assert(k.len() == 0);
                    assert(out@ =~= k2[0]);
                }
            }
            count = count + 1;
        }
        i += 1;
    }
    assert(ss.take(v.len() as int) =~= ss);
    if out.len() == 0 {
        None
    } else {
        Some(string_of(out.as_slice()))
    }
}

/// A search result's title split into artist and title at the first
/// ` - `, both trimmed; without one, no artist.
pub open spec fn split_title_spec(title: Seq<char>) -> (Seq<char>, Seq<char>) {
    match split_once(title, " - "@) {
        Some((a, t)) => (trim(a), trim(t)),
        None => (Seq::empty(), trim(title)),
    }
}

pub fn split_discogs_title(title: &str) -> (r: (String, String))
    ensures
        (r.0@, r.1@) == split_title_spec(title@),
{
    let v = chars_of(title);
    match split_once_lit(v.as_slice(), " - ") {
        Some((a, t)) => (
            string_of(trim_chars(a.as_slice()).as_slice()),
            string_of(trim_chars(t.as_slice()).as_slice()),
        ),
        None => {
            let e: Vec<char> = Vec::new();
            assert(e@ =~= Seq::<char>::empty());
            (string_of(e.as_slice()), string_of(trim_chars(v.as_slice()).as_slice()))
        },
    }
}

/// The search text of a lookup: artist and album title.
pub fn discogs_search_query(artist_name: &str, album_title: &str) -> (r: String)
    ensures
        r@ == artist_name@ + " "@ + album_title@,
{
    let mut v = chars_of(artist_name);
    v.push(' ');
    let t = chars_of(album_title);
    append_chars(&mut v, t.as_slice());
    proof {
        reveal_strlit(" ");
        assert(v@ =~= artist_name@ + " "@ + album_title@);
    }
    string_of(v.as_slice())
}

/// The page a search answered and whether more follow: the reported page
/// and page count when the response has them, else the requested page and
/// no more.
pub fn discogs_page(pagination: Option<(u32, u32)>, requested: u32) -> (r: (u32, bool))
    ensures
        r == (match pagination {
            Some((page, pages)) => (page, page < pages),
            None => (requested, false),
        }),
{
    match pagination {
        Some((page, pages)) => (page, page < pages),
        None => (requested, false),
    }
}

/// A hit of a Discogs database search.
#[derive(Debug, Clone)]
pub struct DiscogsSearchResult {
    pub id: u64,
    pub title: String,
    pub type_: Option<String>,
    pub year: Option<String>,
}

pub open spec fn is_release(r: DiscogsSearchResult) -> bool {
    r.type_ matches Some(t) && t@ == "release"@
}

/// The candidate a release hit gives: the artist from its title, else the
/// album's; the year where it parses.
pub open spec fn candidate_of(r: DiscogsSearchResult, ctx_artist: Seq<char>, rank: int) -> CandidateView {
    let (a, t) = split_title_spec(r.title@);
    CandidateView {
        id: dec_nat(r.id as nat),
        title: t,
        artist_name: if a.len() == 0 {
            ctx_artist
        } else {
            a
        },
        year: match r.year {
            Some(y) => parse_i32_spec(y@),
            None => None,
        },
        track_count: None,
        rank,
    }
}

/// The candidates of a page of results: the release hits, in order, ranked
/// by their position after `offset` earlier results.
pub open spec fn candidates_spec(rs: Seq<DiscogsSearchResult>, ctx_artist: Seq<char>, offset: int) -> Seq<
    CandidateView,
>
    decreases rs.len(),
{
    if rs.len() == 0 {
        Seq::empty()
    } else {
        let prev = candidates_spec(rs.drop_last(), ctx_artist, offset);
        if is_release(rs.last()) {
            prev.push(candidate_of(rs.last(), ctx_artist, offset + rs.len() - 1))
        } else {
            prev
        }
    }
}

/// Results before page `page` (pages count from 1; page 0 counts as 1).
pub open spec fn page_offset(page: u32) -> int {
    if page == 0 {
        0
    } else {
        (page - 1) * DISCOGS_PER_PAGE
    }
}

pub fn discogs_candidates(results: &Vec<DiscogsSearchResult>, ctx_artist: &str, page: u32) -> (r: Vec<
    CandidateBasis,
>)
    requires
        page_offset(page) + results@.len() <= u32::MAX,
    ensures
        candidate_views(r@) == candidates_spec(
            results@,
            ctx_artist@,
            page_offset(page),
        ),
{
    let offset: u32 = if page == 0 {
        0
    } else {
        (page - 1) * DISCOGS_PER_PAGE
    };
    let mut out: Vec<CandidateBasis> = Vec::new();
    let mut i: usize = 0;
    while i < results.len()
        invariant
            i <= results.len(),
            offset == page_offset(page),
            offset + results@.len() <= u32::MAX,
            candidate_views(out@) == candidates_spec(
                results@.take(i as int),
                ctx_artist@,
                offset as int,
            ),
        decreases results.len() - i,
    {
        let ghost prev = results@.take(i as int);
        assert(results@.take(i + 1).drop_last() =~= prev);
        assert(results@.take(i + 1).last() == results@[i as int]);
        let r = &results[i];
        let release = match &r.type_ {
            Some(t) => str_is(t.as_str(), "release"),
            None => false,
        };
        if release {
            let (a, t) = split_discogs_title(r.title.as_str());
            let artist_name = if chars_of(a.as_str()).len() == 0 {
                ctx_artist.to_string()
            } else {
                a
            };
            let year = match &r.year {
                Some(y) => crate::text::parse_i32(chars_of(y.as_str()).as_slice()),
                None => None,
            };
            let id = string_of(fmt_u64(r.id).as_slice());
            let c = CandidateBasis {
                id,
                title: t,
                artist_name,
                year,
                track_count: None,
                rank: offset + i as u32,
            };
            let ghost before = out@;
            out.push(c);
            proof {
                lemma_candidate_views_push(before, c);
            }
        }
        i += 1;
    }
    assert(results@.take(results.len() as int) =~= results@);
    out
}

/// A release as Discogs returns it.
#[derive(Debug)]
pub struct DiscogsRelease {
    pub id: u64,
    pub title: String,
    pub year: Option<u32>,
    pub styles: Option<Vec<String>>,
    pub artists: Option<Vec<String>>,
    pub tracklist: Option<Vec<DiscogsTrack>>,
    pub images: Option<Vec<(String, String)>>,
}

/// The cover of a release: the first image typed primary or secondary.
pub open spec fn cover_spec(images: Seq<(Seq<char>, Seq<char>)>) -> Option<Seq<char>>
    decreases images.len(),
{
    if images.len() == 0 {
        None
    } else if images[0].0 == "primary"@ || images[0].0 == "secondary"@ {
        Some(images[0].1)
    } else {
        cover_spec(images.drop_first())
    }
}

pub open spec fn image_texts(v: Seq<(String, String)>) -> Seq<(Seq<char>, Seq<char>)> {
    v.map_values(|p: (String, String)| (p.0@, p.1@))
}

fn find_cover(images: &Vec<(String, String)>) -> (r: Option<String>)
    ensures
        opt_view(r) == cover_spec(image_texts(images@)),
{
    let ghost all = image_texts(images@);
    assert(all.skip(0) =~= all);
    let mut i: usize = 0;
    while i < images.len()
        invariant
            i <= images.len(),
            all == image_texts(images@),
            cover_spec(all) == cover_spec(all.skip(i as int)),
        decreases images.len() - i,
    {
        let ghost rest = all.skip(i as int);
        assert(rest[0] == (images@[i as int].0@, images@[i as int].1@));
        assert(rest.drop_first() =~= all.skip(i + 1));
        let (ty, uri) = &images[i];
        if str_is(ty.as_str(), "primary") || str_is(ty.as_str(), "secondary") {
            return Some(uri.clone());
        }
        i += 1;
    }
    assert(all.skip(images.len() as int) =~= Seq::<(Seq<char>, Seq<char>)>::empty());
    None
}

/// The metadata a release gives: its first artist (else none), its styles
/// as the genre, its cover, and its playable tracks numbered from 1 on
/// disc 1, each with the release year and genre.
pub open spec fn release_matches(m: AlbumMetadataRelease, title: Seq<char>, year: Option<u32>, artists: Option<Seq<Seq<char>>>, genre: Option<Seq<char>>, cover: Option<Seq<char>>, flat: Seq<(Seq<char>, Option<Seq<char>>)>) -> bool {
    &&& m.title@ == title
    &&& m.artist_name@ == (match artists {
        Some(a) => if a.len() > 0 {
            a[0]
        } else {
            Seq::empty()
        },
        None => Seq::empty(),
    })
    &&& m.year == (match year {
        Some(y) => Some(y as i32),
        None => None,
    })
    &&& opt_view(m.genre) == genre
    &&& opt_view(m.cover_url) == cover
    &&& m.tracks@.len() == flat.len()
    &&& forall|i: int|
        0 <= i < flat.len() ==> {
            let t = #[trigger] m.tracks@[i];
            &&& t.title@ == flat[i].0
            &&& t.track_number == Some((i + 1) as u32)
            &&& t.disc_number == Some(1u32)
            &&& t.year == year
            &&& opt_view(t.genre) == genre
        }
}

pub fn discogs_release(rel: DiscogsRelease) -> (r: AlbumMetadataRelease)
    requires
        rel.tracklist matches Some(tl) ==> playable_all(tl@).len() < u32::MAX,
    ensures
        release_matches(
            r,
            rel.title@,
            rel.year,
            match rel.artists {
                Some(a) => Some(texts(a@)),
                None => None,
            },
            styles_genre_spec(
                match rel.styles {
                    Some(v) => Some(texts(v@)),
                    None => None,
                },
            ),
            match rel.images {
                Some(im) => cover_spec(image_texts(im@)),
                None => None,
            },
            match rel.tracklist {
                Some(tl) => playable_all(tl@),
                None => Seq::empty(),
            },
        ),
{
    let DiscogsRelease { id: _, title, year, styles, artists, tracklist, images } = rel;
    let artist_name = match &artists {
        Some(a) => if a.len() > 0 {
            a[0].clone()
        } else {
            String::new()
        },
        None => String::new(),
    };
    let genre = styles_as_genre(&styles);
    let cover_url = match &images {
        Some(im) => find_cover(im),
        None => None,
    };
    let ghost flat_spec = if tracklist is Some {
        playable_all(tracklist->0@)
    } else {
        Seq::empty()
    };
    let flat = match tracklist {
        Some(tl) => flatten_discogs_tracklist(tl),
        None => {
            let v: Vec<(String, Option<String>)> = Vec::new();
            assert(entries(v@) =~= Seq::<(Seq<char>, Option<Seq<char>>)>::empty());
            v
        },
    };
    let mut tracks: Vec<AlbumMetadataTrack> = Vec::new();
    let mut i: usize = 0;
    while i < flat.len()
        invariant
            i <= flat.len(),
            entries(flat@) == flat_spec,
            flat_spec.len() < u32::MAX,
            tracks@.len() == i,
            forall|j: int|
                0 <= j < i ==> {
                    let t = #[trigger] tracks@[j];
                    &&& t.title@ == flat_spec[j].0
                    &&& t.track_number == Some((j + 1) as u32)
                    &&& t.disc_number == Some(1u32)
                    &&& t.year == year
                    &&& opt_view(t.genre) == opt_view(genre)
                },
        decreases flat.len() - i,
    {
        assert(entries(flat@)[i as int].0 == flat@[i as int].0@);
        tracks.push(
            AlbumMetadataTrack {
                title: flat[i].0.clone(),
                track_number: Some((i + 1) as u32),
                disc_number: Some(1),
                year,
                genre: clone_opt(&genre),
            },
        );
        i += 1;
    }
    AlbumMetadataRelease {
        title,
        artist_name,
        year: match year {
            Some(y) => Some(y as i32),
            None => None,
        },
        genre,
        tracks,
        cover_url,
    }
}

} // verus!
