//! What the tag-source integrations are asked and what they answer.

use vstd::prelude::*;

verus! {

/// A track of the local album, as described to a lookup.
#[derive(Debug, Clone)]
pub struct AlbumLookupTrack {
    pub title: String,
    pub track_number: Option<i32>,
    pub duration_sec: Option<i32>,
}

/// The local album a metadata lookup searches for.
#[derive(Debug, Clone)]
pub struct AlbumLookupContext {
    pub artist_name: String,
    pub album_title: String,
    pub year: Option<i32>,
    pub tracks: Vec<AlbumLookupTrack>,
}

/// A track of a release loaded from a tag source.
#[derive(Debug, Clone)]
pub struct AlbumMetadataTrack {
    pub title: String,
    pub track_number: Option<u32>,
    pub disc_number: Option<u32>,
    pub year: Option<u32>,
    pub genre: Option<String>,
}

/// A release loaded from a tag source, to be applied to a local album.
#[derive(Debug, Clone)]
pub struct AlbumMetadataRelease {
    pub title: String,
    pub artist_name: String,
    pub year: Option<i32>,
    pub genre: Option<String>,
    pub tracks: Vec<AlbumMetadataTrack>,
    pub cover_url: Option<String>,
}

/// A lookup candidate before it is scored: `rank` is its position among
/// the results of the search, by which its score falls.
#[derive(Debug, Clone)]
pub struct CandidateBasis {
    pub id: String,
    pub title: String,
    pub artist_name: String,
    pub year: Option<i32>,
    pub track_count: Option<u32>,
    pub rank: u32,
}

pub struct CandidateView {
    pub id: Seq<char>,
    pub title: Seq<char>,
    pub artist_name: Seq<char>,
    pub year: Option<i32>,
    pub track_count: Option<u32>,
    pub rank: int,
}

pub open spec fn candidate_view(c: CandidateBasis) -> CandidateView {
    CandidateView {
        id: c.id@,
        title: c.title@,
        artist_name: c.artist_name@,
        year: c.year,
        track_count: c.track_count,
        rank: c.rank as int,
    }
}

pub open spec fn candidate_views(v: Seq<CandidateBasis>) -> Seq<CandidateView> {
    v.map_values(|c: CandidateBasis| candidate_view(c))
}

pub proof fn lemma_candidate_views_push(v: Seq<CandidateBasis>, c: CandidateBasis)
    ensures
        candidate_views(v.push(c)) == candidate_views(v).push(candidate_view(c)),
{
    assert(candidate_views(v.push(c)) =~= candidate_views(v).push(candidate_view(c)));
}

} // verus!
