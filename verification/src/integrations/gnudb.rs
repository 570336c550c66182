//! GnuDB (freedb) as a tag source: the search it is sent, how its titles
//! are read, and what its entries and disc records become.

use vstd::prelude::*;

use crate::integrations::types::{
    candidate_views, lemma_candidate_views_push, AlbumLookupContext, AlbumLookupTrack,
    AlbumMetadataRelease, AlbumMetadataTrack, CandidateBasis, CandidateView,
};
use crate::library::tags::opt_view;
use crate::text::{
    append_chars, chars_of, char_from_ascii, dec_nat, fmt_u64, is_ascii_alnum, is_ascii_alnum_char,
    split_once, split_once_lit, string_of, trim, trim_chars, trim_end_char,
    trim_end_char_chars,
};

verus! {

/// The server asked when none is configured.
pub open spec fn default_server() -> Seq<char> {
    "http://gnudb.gnudb.org:80"@
}

/// The server a GnuDB integration talks to: the configured base, trimmed,
/// else the public server; without trailing `/`.
pub open spec fn server_base_spec(configured: Option<Seq<char>>) -> Seq<char> {
    let base = match configured {
        Some(s) => if trim(s).len() > 0 {
            trim(s)
        } else {
            default_server()
        },
        None => default_server(),
    };
    trim_end_char(base, '/')
}

pub fn gnudb_server_base(configured: Option<&str>) -> (r: String)
    ensures
        r@ == server_base_spec(
            match configured {
                Some(s) => Some(s@),
                None => None,
            },
        ),
{
    let base = match configured {
        Some(s) => {
            let t = trim_chars(chars_of(s).as_slice());
            if t.len() > 0 {
                t
            } else {
                chars_of("http://gnudb.gnudb.org:80")
            }
        },
        None => chars_of("http://gnudb.gnudb.org:80"),
    };
    string_of(trim_end_char_chars(base.as_slice(), '/').as_slice())
}

pub open spec fn url_safe(c: char) -> bool {
    is_ascii_alnum(c) || c == '-' || c == '_' || c == '.'
}

pub open spec fn hex_digit(d: nat) -> char
    recommends
        d < 16,
{
    if d < 10 {
        (('0' as u32) + d) as char
    } else {
        (('A' as u32) + d - 10) as char
    }
}

/// Upper-case hexadecimal digits of `n`.
pub open spec fn hex_upper(n: nat) -> Seq<char>
    decreases n,
{
    if n < 16 {
        seq![hex_digit(n)]
    } else {
        hex_upper(n / 16).push(hex_digit(n % 16))
    }
}

/// `format!("{:02X}", n)`.
pub open spec fn hex_pad2(n: nat) -> Seq<char> {
    if n < 16 {
        seq!['0', hex_digit(n)]
    } else {
        hex_upper(n)
    }
}

/// A character as the search query writes it: itself when URL-safe, else
/// `%` and its code point in hexadecimal.
pub open spec fn encode_char(c: char) -> Seq<char> {
    if url_safe(c) {
        seq![c]
    } else {
        seq!['%'] + hex_pad2((c as u32) as nat)
    }
}

pub open spec fn url_encode_spec(s: Seq<char>) -> Seq<char>
    decreases s.len(),
{
    if s.len() == 0 {
        Seq::empty()
    } else {
        url_encode_spec(s.drop_last()) + encode_char(s.last())
    }
}

fn hex_digit_exec(d: u32) -> (c: char)
    requires
        d < 16,
    ensures
        c == hex_digit(d as nat),
{
    if d < 10 {
        char_from_ascii(('0' as u32) + d)
    } else {
        char_from_ascii(('A' as u32) + d - 10)
    }
}

fn fmt_hex_upper(n: u32) -> (r: Vec<char>)
    ensures
        r@ == hex_upper(n as nat),
    decreases n,
{
    if n < 16 {
        let mut v: Vec<char> = Vec::new();
        v.push(hex_digit_exec(n));
        assert(v@ =~= seq![hex_digit(n as nat)]);
        v
    } else {
        let mut v = fmt_hex_upper(n / 16);
        v.push(hex_digit_exec(n % 16));
        v
    }
}

/// The percent-encoding GnuDB searches are written with.
pub fn urlencoding_sim(s: &str) -> (r: String)
    ensures
        r@ == url_encode_spec(s@),
{
    let v = chars_of(s);
    let mut out: Vec<char> = Vec::new();
    let mut i: usize = 0;
    while i < v.len()
        invariant
            i <= v.len(),
            out@ == url_encode_spec(v@.take(i as int)),
        decreases v.len() - i,
    {
        assert(v@.take(i + 1).drop_last() =~= v@.take(i as int));
        let c = v[i];
        let ghost before = out@;
        assert(v@.take(i + 1).last() == c);
        if is_ascii_alnum_char(c) || c == '-' || c == '_' || c == '.' {
            out.push(c);
            assert(out@ =~= before + encode_char(c));
        } else {
            out.push('%');
            let n = c as u32;
            if n < 16 {
                out.push('0');
                out.push(hex_digit_exec(n));
                assert(out@ =~= before + encode_char(c));
            } else {
                let h = fmt_hex_upper(n);
                append_chars(&mut out, h.as_slice());
                assert(out@ =~= before + encode_char(c));
            }
        }
        assert(out@ =~= url_encode_spec(v@.take(i + 1)));
        i += 1;
    }
    assert(v@.take(v.len() as int) =~= v@);
    string_of(out.as_slice())
}

/// The durations, in seconds, of the local tracks that have one.
pub open spec fn durations(ts: Seq<AlbumLookupTrack>) -> Seq<nat>
    decreases ts.len(),
{
    if ts.len() == 0 {
        Seq::empty()
    } else {
        let r = durations(ts.drop_last());
        match ts.last().duration_sec {
            Some(s) => if s > 0 {
                r.push(s as nat)
            } else {
                r
            },
            None => r,
        }
    }
}

/// Decimal numbers joined by `+`.
pub open spec fn plus_joined(ns: Seq<nat>) -> Seq<char>
    decreases ns.len(),
{
    if ns.len() == 0 {
        Seq::empty()
    } else if ns.len() == 1 {
        dec_nat(ns[0])
    } else {
        plus_joined(ns.drop_last()).push('+') + dec_nat(ns.last())
    }
}

/// The search a lookup sends: by table of contents when the local tracks
/// have durations, else by artist and title.
pub open spec fn toc_query_spec(ctx: AlbumLookupContext) -> Seq<char> {
    let ds = durations(ctx.tracks@);
    if ds.len() == 0 {
        "cat=album&artist="@ + url_encode_spec(ctx.artist_name@) + "&title="@ + url_encode_spec(
            ctx.album_title@,
        )
    } else {
        "cat=toc&t="@ + plus_joined(ds)
    }
}

/// The artist-and-title search (`text_search_fallback`'s query).
pub fn text_search_query(artist_name: &str, album_title: &str) -> (r: String)
    ensures
        r@ == "cat=album&artist="@ + url_encode_spec(artist_name@) + "&title="@ + url_encode_spec(
            album_title@,
        ),
{
    let mut v = chars_of("cat=album&artist=");
    let a = urlencoding_sim(artist_name);
    append_chars(&mut v, chars_of(a.as_str()).as_slice());
    append_chars(&mut v, chars_of("&title=").as_slice());
    let t = urlencoding_sim(album_title);
    append_chars(&mut v, chars_of(t.as_str()).as_slice());
    string_of(v.as_slice())
}

pub fn toc_query(ctx: &AlbumLookupContext) -> (r: String)
    ensures
        r@ == toc_query_spec(*ctx),
{
    let mut joined: Vec<char> = Vec::new();
    let mut count: usize = 0;
    let mut i: usize = 0;
    while i < ctx.tracks.len()
        invariant
            i <= ctx.tracks.len(),
            count <= i,
            count == durations(ctx.tracks@.take(i as int)).len(),
            joined@ == plus_joined(durations(ctx.tracks@.take(i as int))),
        decreases ctx.tracks.len() - i,
    {
        let ghost prev = ctx.tracks@.take(i as int);
        assert(ctx.tracks@.take(i + 1).drop_last() =~= prev);
        assert(ctx.tracks@.take(i + 1).last() == ctx.tracks@[i as int]);
        if let Some(sec) = ctx.tracks[i].duration_sec {
            if sec > 0 {
                let ghost ds = durations(prev);
                if count > 0 {
                    joined.push('+');
                }
                let d = fmt_u64(sec as u64);
                append_chars(&mut joined, d.as_slice());
                proof {
                    let ds2 = ds.push(sec as nat);
                    assert(ds2.drop_last() =~= ds);
                    if count == 0 {
                        assert(joined@ =~= dec_nat(ds2[0]));
                    }
                }
                count = count + 1;
            }
        }
        i += 1;
    }
    assert(ctx.tracks@.take(ctx.tracks.len() as int) =~= ctx.tracks@);
    if count == 0 {
        return text_search_query(ctx.artist_name.as_str(), ctx.album_title.as_str());
    }
    let mut v = chars_of("cat=toc&t=");
    append_chars(&mut v, joined.as_slice());
    string_of(v.as_slice())
}

/// A freedb title read as artist and album: split at the first `/`, else at
/// the first ` - `, both trimmed; otherwise the lookup's artist and the
/// whole title, trimmed.
pub open spec fn freedb_title_spec(title: Seq<char>, ctx_artist: Seq<char>) -> (Seq<char>, Seq<char>) {
    match split_once(title, "/"@) {
        Some((a, t)) => (trim(a), trim(t)),
        None => match split_once(title, " - "@) {
            Some((a, t)) => (trim(a), trim(t)),
            None => (ctx_artist, trim(title)),
        },
    }
}

pub fn parse_freedb_title(title: &str, ctx_artist: &str) -> (r: (String, String))
    ensures
        (r.0@, r.1@) == freedb_title_spec(title@, ctx_artist@),
{
    let v = chars_of(title);
    if let Some((a, t)) = split_once_lit(v.as_slice(), "/") {
        return (
            string_of(trim_chars(a.as_slice()).as_slice()),
            string_of(trim_chars(t.as_slice()).as_slice()),
        );
    }
    if let Some((a, t)) = split_once_lit(v.as_slice(), " - ") {
        return (
            string_of(trim_chars(a.as_slice()).as_slice()),
            string_of(trim_chars(t.as_slice()).as_slice()),
        );
    }
    (ctx_artist.to_string(), string_of(trim_chars(v.as_slice()).as_slice()))
}

/// An entry of a GnuDB search answer.
#[derive(Debug, Clone)]
pub struct FreedbEntry {
    pub disc_id: Option<String>,
    pub title: Option<String>,
}

/// The candidate entry `i` gives: its disc id (else `gnudb-i`), its title
/// read as artist and album (the lookup's album title when it has none),
/// the lookup's year and track count.
pub open spec fn gnudb_candidate(e: FreedbEntry, ctx: AlbumLookupContext, i: int) -> CandidateView {
    let title = match e.title {
        Some(t) => t@,
        None => ctx.album_title@,
    };
    let (a, t) = freedb_title_spec(title, ctx.artist_name@);
    CandidateView {
        id: match e.disc_id {
            Some(d) => d@,
            None => "gnudb-"@ + dec_nat(i as nat),
        },
        title: t,
        artist_name: a,
        year: ctx.year,
        track_count: Some(ctx.tracks@.len() as u32),
        rank: i,
    }
}

pub open spec fn gnudb_candidates_spec(es: Seq<FreedbEntry>, ctx: AlbumLookupContext) -> Seq<
    CandidateView,
>
    decreases es.len(),
{
    if es.len() == 0 {
        Seq::empty()
    } else {
        gnudb_candidates_spec(es.drop_last(), ctx).push(
            gnudb_candidate(es.last(), ctx, es.len() - 1),
        )
    }
}

/// The candidates of a GnuDB search answer, in order.
pub fn gnudb_candidates(entries: &Vec<FreedbEntry>, ctx: &AlbumLookupContext) -> (r: Vec<
    CandidateBasis,
>)
    requires
        entries@.len() <= u32::MAX,
        ctx.tracks@.len() <= u32::MAX,
    ensures
        candidate_views(r@) == gnudb_candidates_spec(entries@, *ctx),
{
    let mut out: Vec<CandidateBasis> = Vec::new();
    let mut i: usize = 0;
    while i < entries.len()
        invariant
            i <= entries.len(),
            entries@.len() <= u32::MAX,
            ctx.tracks@.len() <= u32::MAX,
            candidate_views(out@) == gnudb_candidates_spec(entries@.take(i as int), *ctx),
        decreases entries.len() - i,
    {
        assert(entries@.take(i + 1).drop_last() =~= entries@.take(i as int));
        assert(entries@.take(i + 1).last() == entries@[i as int]);
        let e = &entries[i];
        let title = match &e.title {
            Some(t) => t.clone(),
            None => ctx.album_title.clone(),
        };
        let (artist_name, album_title) = parse_freedb_title(title.as_str(), ctx.artist_name.as_str());
        let id = match &e.disc_id {
            Some(d) => d.clone(),
            None => {
                let mut v = chars_of("gnudb-");
                append_chars(&mut v, fmt_u64(i as u64).as_slice());
                string_of(v.as_slice())
            },
        };
        let c = CandidateBasis {
            id,
            title: album_title,
            artist_name,
            year: ctx.year,
            track_count: Some(ctx.tracks.len() as u32),
            rank: i as u32,
        };
        let ghost before = out@;
        out.push(c);
        proof {
            lemma_candidate_views_push(before, c);
        }
        i += 1;
    }
    assert(entries@.take(entries.len() as int) =~= entries@);
    out
}

/// What a lookup does with the answer to its table-of-contents search: the
/// candidates it gives, or `None` when the search failed or found nothing
/// and the artist-and-title search is tried instead.
pub fn gnudb_toc_candidates(answer: Option<Vec<FreedbEntry>>, ctx: &AlbumLookupContext) -> (r: Option<
    Vec<CandidateBasis>,
>)
    requires
        answer matches Some(es) ==> es@.len() <= u32::MAX,
        ctx.tracks@.len() <= u32::MAX,
    ensures
        match answer {
            Some(es) => if es@.len() == 0 {
                r is None
            } else {
                r matches Some(v) && candidate_views(v@) == gnudb_candidates_spec(es@, *ctx)
            },
            None => r is None,
        },
{
    match answer {
        Some(es) => {
            if es.len() == 0 {
                None
            } else {
                Some(gnudb_candidates(&es, ctx))
            }
        },
        None => None,
    }
}

/// A track of a GnuDB disc record.
#[derive(Debug, Clone)]
pub struct GnudbTrack {
    pub title: Option<String>,
    pub track: Option<u32>,
}

/// The release a disc record gives: artist and album from its title, its
/// tracks titled `Track n` and numbered by position where the record has
/// no title or number, all on disc 1.
pub open spec fn gnudb_release_matches(m: AlbumMetadataRelease, title: Option<Seq<char>>, tracks: Seq<GnudbTrack>) -> bool {
    let (a, t) = freedb_title_spec(
        match title {
            Some(s) => s,
            None => Seq::empty(),
        },
        Seq::empty(),
    );
    &&& m.title@ == t
    &&& m.artist_name@ == a
    &&& m.year is None
    &&& m.genre is None
    &&& m.cover_url is None
    &&& m.tracks@.len() == tracks.len()
    &&& forall|i: int|
        0 <= i < tracks.len() ==> {
            let mt = #[trigger] m.tracks@[i];
            &&& mt.title@ == (match tracks[i].title {
                Some(s) => s@,
                None => "Track "@ + dec_nat((i + 1) as nat),
            })
            &&& mt.track_number == (match tracks[i].track {
                Some(n) => Some(n),
                None => Some((i + 1) as u32),
            })
            &&& mt.disc_number == Some(1u32)
            &&& mt.year is None
            &&& mt.genre is None
        }
}

pub fn gnudb_release(title: Option<String>, tracks: Option<Vec<GnudbTrack>>) -> (r: AlbumMetadataRelease)
    requires
        tracks matches Some(ts) ==> ts@.len() < u32::MAX,
    ensures
        gnudb_release_matches(
            r,
            opt_view(title),
            match tracks {
                Some(ts) => ts@,
                None => Seq::empty(),
            },
        ),
{
    let ghost tspec = if tracks is Some {
        tracks->0@
    } else {
        Seq::empty()
    };
    let ts: Vec<GnudbTrack> = match tracks {
        Some(ts) => ts,
        None => Vec::new(),
    };
    assert(ts@ == tspec);
    let mut out: Vec<AlbumMetadataTrack> = Vec::new();
    let mut i: usize = 0;
    while i < ts.len()
        invariant
            i <= ts.len(),
            ts@ == tspec,
            ts@.len() < u32::MAX,
            out@.len() == i,
            forall|j: int|
                0 <= j < i ==> {
                    let mt = #[trigger] out@[j];
                    &&& mt.title@ == (match ts@[j].title {
                        Some(s) => s@,
                        None => "Track "@ + dec_nat((j + 1) as nat),
                    })
                    &&& mt.track_number == (match ts@[j].track {
                        Some(n) => Some(n),
                        None => Some((j + 1) as u32),
                    })
                    &&& mt.disc_number == Some(1u32)
                    &&& mt.year is None
                    &&& mt.genre is None
                },
        decreases ts.len() - i,
    {
        let title = match &ts[i].title {
            Some(s) => s.clone(),
            None => {
                let mut v = chars_of("Track ");
                append_chars(&mut v, fmt_u64((i + 1) as u64).as_slice());
                string_of(v.as_slice())
            },
        };
        let track_number = match ts[i].track {
            Some(n) => Some(n),
            None => Some((i + 1) as u32),
        };
        out.push(AlbumMetadataTrack { title, track_number, disc_number: Some(1), year: None, genre: None });
        i += 1;
    }
    let t = match &title {
        Some(s) => s.clone(),
        None => String::new(),
    };
    let (artist_name, album_title) = parse_freedb_title(t.as_str(), "");
    proof {
        reveal_strlit("");
    }
    let ghost tv = match opt_view(title) {
        Some(x) => x,
        None => Seq::empty(),
    };
    assert(t@ == tv);
    assert((artist_name@, album_title@) == freedb_title_spec(tv, Seq::empty()));
    let r = AlbumMetadataRelease {
        title: album_title,
        artist_name,
        year: None,
        genre: None,
        tracks: out,
        cover_url: None,
    };
    assert(r.tracks@.len() == tspec.len());
    r
}

} // verus!
