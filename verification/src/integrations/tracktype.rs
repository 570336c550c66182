//! TrackType.org as a tag source: its settings and what its search results
//! and release records become.

use vstd::prelude::*;

use crate::integrations::types::{
    candidate_views, lemma_candidate_views_push, AlbumLookupContext, AlbumMetadataRelease,
    AlbumMetadataTrack, CandidateBasis, CandidateView,
};
use crate::library::tags::{clone_opt, opt_view};
use crate::text::{
    append_chars, chars_of, dec_nat, fmt_u64, string_of, trim, trim_chars, trim_end_char,
    trim_end_char_chars,
};

verus! {

/// The API a TrackType integration talks to (the configured base, trimmed,
/// else the public site, without trailing `/`) and its key (trimmed, none
/// when blank).
pub open spec fn tracktype_settings_spec(api_base: Option<Seq<char>>, api_key: Option<Seq<char>>) -> (
    Seq<char>,
    Option<Seq<char>>,
) {
    let base = match api_base {
        Some(s) => if trim(s).len() > 0 {
            trim(s)
        } else {
            "https://tracktype.org"@
        },
        None => "https://tracktype.org"@,
    };
    let key = match api_key {
        Some(k) => if trim(k).len() > 0 {
            Some(trim(k))
        } else {
            None
        },
        None => None,
    };
    (trim_end_char(base, '/'), key)
}

pub fn tracktype_settings(api_base: Option<&str>, api_key: Option<&str>) -> (r: (String, Option<String>))
    ensures
        (r.0@, opt_view(r.1)) == tracktype_settings_spec(
            match api_base {
                Some(s) => Some(s@),
                None => None,
            },
            match api_key {
                Some(s) => Some(s@),
                None => None,
            },
        ),
{
    let base = match api_base {
        Some(s) => {
            let t = trim_chars(chars_of(s).as_slice());
            if t.len() > 0 {
                t
            } else {
                chars_of("https://tracktype.org")
            }
        },
        None => chars_of("https://tracktype.org"),
    };
    let key = match api_key {
        Some(k) => {
            let t = trim_chars(chars_of(k).as_slice());
            if t.len() > 0 {
                Some(string_of(t.as_slice()))
            } else {
                None
            }
        },
        None => None,
    };
    (string_of(trim_end_char_chars(base.as_slice(), '/').as_slice()), key)
}

/// A result of a TrackType search.
#[derive(Debug, Clone)]
pub struct TrackTypeResult {
    pub id: Option<String>,
    pub artist: Option<String>,
    pub album: Option<String>,
    pub year: Option<i32>,
}

/// The candidate result `i` gives: its id (else `tracktype-i`), album and
/// artist (else the lookup's), year (else the lookup's), and the lookup's
/// track count.
pub open spec fn tracktype_candidate(r: TrackTypeResult, ctx: AlbumLookupContext, i: int) -> CandidateView {
    CandidateView {
        id: match r.id {
            Some(s) => s@,
            None => "tracktype-"@ + dec_nat(i as nat),
        },
        title: match r.album {
            Some(s) => s@,
            None => ctx.album_title@,
        },
        artist_name: match r.artist {
            Some(s) => s@,
            None => ctx.artist_name@,
        },
        year: match r.year {
            Some(y) => Some(y),
            None => ctx.year,
        },
        track_count: Some(ctx.tracks@.len() as u32),
        rank: i,
    }
}

pub open spec fn tracktype_candidates_spec(rs: Seq<TrackTypeResult>, ctx: AlbumLookupContext) -> Seq<
    CandidateView,
>
    decreases rs.len(),
{
    if rs.len() == 0 {
        Seq::empty()
    } else {
        tracktype_candidates_spec(rs.drop_last(), ctx).push(
            tracktype_candidate(rs.last(), ctx, rs.len() - 1),
        )
    }
}

fn or_text(o: &Option<String>, d: &String) -> (r: String)
    ensures
        r@ == (match o {
            Some(s) => s@,
            None => d@,
        }),
{
    match o {
        Some(s) => s.clone(),
        None => d.clone(),
    }
}

pub fn tracktype_candidates(results: &Vec<TrackTypeResult>, ctx: &AlbumLookupContext) -> (r: Vec<
    CandidateBasis,
>)
    requires
        results@.len() <= u32::MAX,
        ctx.tracks@.len() <= u32::MAX,
    ensures
        candidate_views(r@) == tracktype_candidates_spec(results@, *ctx),
{
    let mut out: Vec<CandidateBasis> = Vec::new();
    let mut i: usize = 0;
    while i < results.len()
        invariant
            i <= results.len(),
            results@.len() <= u32::MAX,
            ctx.tracks@.len() <= u32::MAX,
            candidate_views(out@) == tracktype_candidates_spec(results@.take(i as int), *ctx),
        decreases results.len() - i,
    {
        assert(results@.take(i + 1).drop_last() =~= results@.take(i as int));
        assert(results@.take(i + 1).last() == results@[i as int]);
        let r = &results[i];
        let id = match &r.id {
            Some(s) => s.clone(),
            None => {
                let mut v = chars_of("tracktype-");
                append_chars(&mut v, fmt_u64(i as u64).as_slice());
                string_of(v.as_slice())
            },
        };
        let c = CandidateBasis {
            id,
            title: or_text(&r.album, &ctx.album_title),
            artist_name: or_text(&r.artist, &ctx.artist_name),
            year: match r.year {
                Some(y) => Some(y),
                None => ctx.year,
            },
            track_count: Some(ctx.tracks.len() as u32),
            rank: i as u32,
        };
        let ghost before = out@;
        out.push(c);
        proof {
            lemma_candidate_views_push(before, c);
        }
        i += 1;
    }
    assert(results@.take(results.len() as int) =~= results@);
    out
}

/// A track of a TrackType release record.
#[derive(Debug, Clone)]
pub struct TrackTypeTrack {
    pub title: Option<String>,
    pub track_number: Option<u32>,
}

/// A TrackType release record.
#[derive(Debug, Clone)]
pub struct TrackTypeDetail {
    pub artist: Option<String>,
    pub album: Option<String>,
    pub year: Option<i32>,
    pub genre: Option<String>,
    pub tracks: Vec<TrackTypeTrack>,
}

/// The release a record gives: its album and artist (else empty), year and
/// genre, and its tracks titled `Track n` and numbered by position where
/// it gives no title or number, all on disc 1 with the record's year and
/// genre.
pub open spec fn tracktype_release_matches(m: AlbumMetadataRelease, d: TrackTypeDetail) -> bool {
    let year = match d.year {
        Some(y) => Some(y as u32),
        None => None,
    };
    &&& m.title@ == (match d.album {
        Some(s) => s@,
        None => Seq::empty(),
    })
    &&& m.artist_name@ == (match d.artist {
        Some(s) => s@,
        None => Seq::empty(),
    })
    &&& m.year == d.year
    &&& opt_view(m.genre) == opt_view(d.genre)
    &&& m.cover_url is None
    &&& m.tracks@.len() == d.tracks@.len()
    &&& forall|i: int|
        0 <= i < d.tracks@.len() ==> {
            let mt = #[trigger] m.tracks@[i];
            &&& mt.title@ == (match d.tracks@[i].title {
                Some(s) => s@,
                None => "Track "@ + dec_nat((i + 1) as nat),
            })
            &&& mt.track_number == (match d.tracks@[i].track_number {
                Some(n) => Some(n),
                None => Some((i + 1) as u32),
            })
            &&& mt.disc_number == Some(1u32)
            &&& mt.year == year
            &&& opt_view(mt.genre) == opt_view(d.genre)
        }
}

pub fn tracktype_release(d: &TrackTypeDetail) -> (r: AlbumMetadataRelease)
    requires
        d.tracks@.len() < u32::MAX,
    ensures
        tracktype_release_matches(r, *d),
{
    let year: Option<u32> = match d.year {
        Some(y) => Some(y as u32),
        None => None,
    };
    let mut tracks: Vec<AlbumMetadataTrack> = Vec::new();
    let mut i: usize = 0;
    while i < d.tracks.len()
        invariant
            i <= d.tracks.len(),
            d.tracks@.len() < u32::MAX,
            year == (match d.year {
                Some(y) => Some(y as u32),
                None => None,
            }),
            tracks@.len() == i,
            forall|j: int|
                0 <= j < i ==> {
                    let mt = #[trigger] tracks@[j];
                    &&& mt.title@ == (match d.tracks@[j].title {
                        Some(s) => s@,
                        None => "Track "@ + dec_nat((j + 1) as nat),
                    })
                    &&& mt.track_number == (match d.tracks@[j].track_number {
                        Some(n) => Some(n),
                        None => Some((j + 1) as u32),
                    })
                    &&& mt.disc_number == Some(1u32)
                    &&& mt.year == year
                    &&& opt_view(mt.genre) == opt_view(d.genre)
                },
        decreases d.tracks.len() - i,
    {
        let t = &d.tracks[i];
        let title = match &t.title {
            Some(s) => s.clone(),
            None => {
                let mut v = chars_of("Track ");
                append_chars(&mut v, fmt_u64((i + 1) as u64).as_slice());
                string_of(v.as_slice())
            },
        };
        let track_number = match t.track_number {
            Some(n) => Some(n),
            None => Some((i + 1) as u32),
        };
        tracks.push(
            AlbumMetadataTrack { title, track_number, disc_number: Some(1), year, genre: clone_opt(&d.genre) },
        );
        i += 1;
    }
    let empty = String::new();
    AlbumMetadataRelease {
        title: or_text(&d.album, &empty),
        artist_name: or_text(&d.artist, &empty),
        year: d.year,
        genre: clone_opt(&d.genre),
        tracks,
        cover_url: None,
    }
}

} // verus!
