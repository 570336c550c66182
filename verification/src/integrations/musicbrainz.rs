//! MusicBrainz as a tag source: who the requests say they come from, the
//! search query, and what its releases become.

use vstd::prelude::*;

use crate::error::{is_message, ApiError};
use crate::integrations::types::{
    candidate_views, lemma_candidate_views_push, AlbumMetadataRelease, AlbumMetadataTrack,
    CandidateBasis, CandidateView,
};
use crate::text::{
    append_chars, chars_of, parse_i32, parse_i32_spec, parse_u32, parse_u32_spec, slice_of,
    string_of, trim, trim_chars,
};

verus! {

/// The User-Agent MusicBrainz requests carry: the configured contact,
/// trimmed, which must not be blank (`MusicBrainzProvider::new` before the
/// HTTP client is built).
pub fn musicbrainz_user_agent(contact: &str) -> (r: Result<String, ApiError>)
    ensures
        trim(contact@).len() == 0 ==> (r matches Err(e) && is_message(
            e,
            "MusicBrainz contact email is required"@,
        )),
        trim(contact@).len() > 0 ==> (r matches Ok(u) && u@ == "Euterpe/0.1 ( "@ + trim(
            contact@,
        ) + " )"@),
{
    let t = trim_chars(chars_of(contact).as_slice());
    if t.len() == 0 {
        return Err(ApiError::bad_request("MusicBrainz contact email is required"));
    }
    let mut v = chars_of("Euterpe/0.1 ( ");
    append_chars(&mut v, t.as_slice());
    append_chars(&mut v, chars_of(" )").as_slice());
    Ok(string_of(v.as_slice()))
}

/// `s` without double quotes.
pub open spec fn without_quotes(s: Seq<char>) -> Seq<char> {
    s.filter(|c: char| c != '"')
}

fn strip_quotes(s: &str) -> (r: Vec<char>)
    ensures
        r@ == without_quotes(s@),
{
    let v = chars_of(s);
    let mut out: Vec<char> = Vec::new();
    let mut i: usize = 0;
    while i < v.len()
        invariant
            i <= v.len(),
            out@ == without_quotes(v@.take(i as int)),
        decreases v.len() - i,
    {
        proof {
            assert(v@.take(i + 1) =~= v@.take(i as int).push(v@[i as int]));
            v@.take(i as int).lemma_filter_push(v@[i as int], |c: char| c != '"');
        }
        if v[i] != '"' {
            out.push(v[i]);
        }
        i += 1;
    }
    assert(v@.take(v.len() as int) =~= v@);
    out
}

/// The release search: `artist:"…" AND release:"…"`, quotes removed from
/// the names.
pub fn search_query(artist_name: &str, album_title: &str) -> (r: String)
    ensures
        r@ == "artist:\""@ + without_quotes(artist_name@) + "\" AND release:\""@ + without_quotes(
            album_title@,
        ) + "\""@,
{
    let mut v = chars_of("artist:\"");
    append_chars(&mut v, strip_quotes(artist_name).as_slice());
    append_chars(&mut v, chars_of("\" AND release:\"").as_slice());
    append_chars(&mut v, strip_quotes(album_title).as_slice());
    append_chars(&mut v, chars_of("\"").as_slice());
    string_of(v.as_slice())
}

/// The year of a release date: its first four characters as a number.
pub open spec fn date_year_i32(d: Seq<char>) -> Option<i32> {
    if d.len() >= 4 {
        parse_i32_spec(d.take(4))
    } else {
        None
    }
}

pub open spec fn date_year_u32(d: Seq<char>) -> Option<u32> {
    if d.len() >= 4 {
        parse_u32_spec(d.take(4))
    } else {
        None
    }
}

fn year_of_date(d: &Option<String>) -> (r: Option<i32>)
    ensures
        r == (match d {
            Some(s) => date_year_i32(s@),
            None => None,
        }),
{
    match d {
        Some(s) => {
            let v = chars_of(s.as_str());
            if v.len() >= 4 {
                let p = slice_of(v.as_slice(), 0, 4);
                assert(p@ =~= v@.take(4));
                parse_i32(p.as_slice())
            } else {
                None
            }
        },
        None => None,
    }
}

fn year_of_date_u32(d: &Option<String>) -> (r: Option<u32>)
    ensures
        r == (match d {
            Some(s) => date_year_u32(s@),
            None => None,
        }),
{
    match d {
        Some(s) => {
            let v = chars_of(s.as_str());
            if v.len() >= 4 {
                let p = slice_of(v.as_slice(), 0, 4);
                assert(p@ =~= v@.take(4));
                parse_u32(p.as_slice())
            } else {
                None
            }
        },
        None => None,
    }
}

/// A release of a MusicBrainz search answer; `artist_credit` holds the
/// credited names.
#[derive(Debug, Clone)]
pub struct MbReleaseSummary {
    pub id: String,
    pub title: String,
    pub date: Option<String>,
    pub artist_credit: Option<Vec<String>>,
    pub track_count: Option<u32>,
}

pub open spec fn first_credit(c: Option<Vec<String>>) -> Option<Seq<char>> {
    match c {
        Some(v) => if v@.len() > 0 {
            Some(v@[0]@)
        } else {
            None
        },
        None => None,
    }
}

fn first_credit_exec(c: &Option<Vec<String>>) -> (r: Option<String>)
    ensures
        crate::library::tags::opt_view(r) == first_credit(*c),
{
    match c {
        Some(v) => if v.len() > 0 {
            Some(v[0].clone())
        } else {
            None
        },
        None => None,
    }
}

/// The candidate release `i` gives: its first credited artist (else the
/// lookup's artist), the year of its date, its track count.
pub open spec fn mb_candidate(r: MbReleaseSummary, ctx_artist: Seq<char>, i: int) -> CandidateView {
    CandidateView {
        id: r.id@,
        title: r.title@,
        artist_name: match first_credit(r.artist_credit) {
            Some(a) => a,
            None => ctx_artist,
        },
        year: match r.date {
            Some(d) => date_year_i32(d@),
            None => None,
        },
        track_count: r.track_count,
        rank: i,
    }
}

pub open spec fn mb_candidates_spec(rs: Seq<MbReleaseSummary>, ctx_artist: Seq<char>) -> Seq<
    CandidateView,
>
    decreases rs.len(),
{
    if rs.len() == 0 {
        Seq::empty()
    } else {
        mb_candidates_spec(rs.drop_last(), ctx_artist).push(
            mb_candidate(rs.last(), ctx_artist, rs.len() - 1),
        )
    }
}

/// The candidates of a search answer, in order.
pub fn mb_candidates(releases: &Vec<MbReleaseSummary>, ctx_artist: &str) -> (r: Vec<CandidateBasis>)
    requires
        releases@.len() <= u32::MAX,
    ensures
        candidate_views(r@) == mb_candidates_spec(releases@, ctx_artist@),
{
    let mut out: Vec<CandidateBasis> = Vec::new();
    let mut i: usize = 0;
    while i < releases.len()
        invariant
            i <= releases.len(),
            releases@.len() <= u32::MAX,
            candidate_views(out@) == mb_candidates_spec(releases@.take(i as int), ctx_artist@),
        decreases releases.len() - i,
    {
        assert(releases@.take(i + 1).drop_last() =~= releases@.take(i as int));
        assert(releases@.take(i + 1).last() == releases@[i as int]);
        let rel = &releases[i];
        let artist_name = match first_credit_exec(&rel.artist_credit) {
            Some(a) => a,
            None => ctx_artist.to_string(),
        };
        let c = CandidateBasis {
            id: rel.id.clone(),
            title: rel.title.clone(),
            artist_name,
            year: year_of_date(&rel.date),
            track_count: rel.track_count,
            rank: i as u32,
        };
        let ghost before = out@;
        out.push(c);
        proof {
            lemma_candidate_views_push(before, c);
        }
        i += 1;
    }
    assert(releases@.take(releases.len() as int) =~= releases@);
    out
}

/// A track of a release's medium.
#[derive(Debug, Clone)]
pub struct MbTrack {
    pub title: String,
    pub position: Option<u32>,
    pub number: Option<String>,
}

/// A release with its media, as MusicBrainz returns it.
#[derive(Debug, Clone)]
pub struct MbReleaseDetail {
    pub title: String,
    pub date: Option<String>,
    pub artist_credit: Option<Vec<String>>,
    pub media: Option<Vec<Option<Vec<MbTrack>>>>,
}

/// The tracks of all media, in order.
pub open spec fn media_tracks(media: Seq<Option<Vec<MbTrack>>>) -> Seq<MbTrack>
    decreases media.len(),
{
    if media.len() == 0 {
        Seq::empty()
    } else {
        media_tracks(media.drop_last()) + match media.last() {
            Some(ts) => ts@,
            None => Seq::empty(),
        }
    }
}

/// A track's number: its position, else its number text read as a
/// number, else its place among all tracks (counting from 1).
pub open spec fn mb_track_number(t: MbTrack, place: int) -> u32 {
    match t.position {
        Some(p) => p,
        None => match t.number {
            Some(n) => match parse_u32_spec(n@) {
                Some(v) => v,
                None => place as u32,
            },
            None => place as u32,
        },
    }
}

/// The release a MusicBrainz record gives: its first credited artist (else
/// none), the year of its date, and the tracks of all its media on disc 1.
pub open spec fn mb_release_matches(m: AlbumMetadataRelease, d: MbReleaseDetail, ts: Seq<MbTrack>) -> bool {
    let year = match d.date {
        Some(s) => date_year_u32(s@),
        None => None,
    };
    &&& m.title@ == d.title@
    &&& m.artist_name@ == (match first_credit(d.artist_credit) {
        Some(a) => a,
        None => Seq::empty(),
    })
    &&& m.year == (match year {
        Some(y) => Some(y as i32),
        None => None,
    })
    &&& m.genre is None
    &&& m.cover_url is None
    &&& m.tracks@.len() == ts.len()
    &&& forall|i: int|
        0 <= i < ts.len() ==> {
            let mt = #[trigger] m.tracks@[i];
            &&& mt.title@ == ts[i].title@
            &&& mt.track_number == Some(mb_track_number(ts[i], i + 1))
            &&& mt.disc_number == Some(1u32)
            &&& mt.year == year
            &&& mt.genre is None
        }
}

pub fn mb_release(d: &MbReleaseDetail) -> (r: AlbumMetadataRelease)
    requires
        d.media matches Some(m) ==> media_tracks(m@).len() < u32::MAX,
    ensures
        mb_release_matches(
            r,
            *d,
            match d.media {
                Some(m) => media_tracks(m@),
                None => Seq::empty(),
            },
        ),
{
    let year = year_of_date_u32(&d.date);
    let ghost all = if d.media is Some {
        media_tracks(d.media->0@)
    } else {
        Seq::empty()
    };
    let mut tracks: Vec<AlbumMetadataTrack> = Vec::new();
    if let Some(media) = &d.media {
        let mut k: usize = 0;
        while k < media.len()
            invariant
                k <= media.len(),
                all == media_tracks(media@),
                all.len() < u32::MAX,
                tracks@.len() == media_tracks(media@.take(k as int)).len(),
                forall|i: int|
                    0 <= i < tracks@.len() ==> {
                        let mt = #[trigger] tracks@[i];
                        &&& mt.title@ == media_tracks(media@.take(k as int))[i].title@
                        &&& mt.track_number == Some(
                            mb_track_number(media_tracks(media@.take(k as int))[i], i + 1),
                        )
                        &&& mt.disc_number == Some(1u32)
                        &&& mt.year == year
                        &&& mt.genre is None
                    },
            decreases media.len() - k,
        {
            let ghost pre = media_tracks(media@.take(k as int));
            proof {
                assert(media@.take(k + 1).drop_last() =~= media@.take(k as int));
                lemma_media_prefix(media@, k as int + 1);
            }
            if let Some(ts) = &media[k] {
                let mut j: usize = 0;
                while j < ts.len()
                    invariant
                        j <= ts.len(),
                        k < media.len(),
                        media@[k as int] == Some(*ts),
                        pre == media_tracks(media@.take(k as int)),
                        media_tracks(media@.take(k + 1)) == pre + ts@,
                        media_tracks(media@.take(k + 1)).len() <= all.len(),
                        all.len() < u32::MAX,
                        tracks@.len() == pre.len() + j,
                        forall|i: int|
                            0 <= i < tracks@.len() ==> {
                                let mt = #[trigger] tracks@[i];
                                &&& mt.title@ == (pre + ts@)[i].title@
                                &&& mt.track_number == Some(mb_track_number((pre + ts@)[i], i + 1))
                                &&& mt.disc_number == Some(1u32)
                                &&& mt.year == year
                                &&& mt.genre is None
                            },
                    decreases ts.len() - j,
                {
                    let place = (tracks.len() + 1) as u32;
                    let t = &ts[j];
                    let tn = match t.position {
                        Some(p) => p,
                        None => match &t.number {
                            Some(n) => match parse_u32(chars_of(n.as_str()).as_slice()) {
                                Some(v) => v,
                                None => place,
                            },
                            None => place,
                        },
                    };
                    assert((pre + ts@)[tracks@.len() as int] == ts@[j as int]);
                    tracks.push(
                        AlbumMetadataTrack {
                            title: t.title.clone(),
                            track_number: Some(tn),
                            disc_number: Some(1),
                            year,
                            genre: None,
                        },
                    );
                    j += 1;
                }
            }
            k += 1;
        }
        assert(media@.take(media.len() as int) =~= media@);
    }
    let artist_name = match first_credit_exec(&d.artist_credit) {
        Some(a) => a,
        None => String::new(),
    };
    AlbumMetadataRelease {
        title: d.title.clone(),
        artist_name,
        year: match year {
            Some(y) => Some(y as i32),
            None => None,
        },
        genre: None,
        tracks,
        cover_url: None,
    }
}

/// A prefix of the media has at most as many tracks as all of them.
proof fn lemma_media_prefix(media: Seq<Option<Vec<MbTrack>>>, k: int)
    requires
        0 <= k <= media.len(),
    ensures
        media_tracks(media.take(k)).len() <= media_tracks(media).len(),
    decreases media.len() - k,
{
    if k < media.len() {
        lemma_media_prefix(media, k + 1);
        assert(media.take(k + 1).drop_last() =~= media.take(k));
    } else {
        assert(media.take(k) =~= media);
    }
}

} // verus!
