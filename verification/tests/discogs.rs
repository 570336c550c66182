use euterpe_server::integrations::discogs::{
    discogs_candidates, discogs_page, discogs_release, discogs_search_query, discogs_token,
    flatten_discogs_tracklist, split_discogs_title, styles_as_genre, DiscogsRelease,
    DiscogsSearchResult, DiscogsTrack,
};

fn track(ty: &str, title: &str, position: Option<&str>, subs: Option<Vec<DiscogsTrack>>) -> DiscogsTrack {
    DiscogsTrack {
        title: title.to_string(),
        position: position.map(|p| p.to_string()),
        type_: Some(ty.to_string()),
        sub_tracks: subs,
    }
}

#[test]
fn pagination_has_more_when_more_pages() {
    let (page, has_more) = discogs_page(Some((1, 3)), 1);
    assert_eq!(page, 1);
    assert!(has_more);
    assert_eq!(discogs_page(Some((3, 3)), 1), (3, false));
    assert_eq!(discogs_page(None, 2), (2, false));
}

#[test]
fn flatten_expands_index_sub_tracks() {
    let items = vec![
        track("track", "Concerto For Orchestra", Some("1"), None),
        track("track", "Schelomo", Some("2"), None),
        track(
            "index",
            "Concerto For Cello",
            None,
            Some(vec![
                track("track", "I. Lento moderato", Some("3-1"), None),
                track("track", "II. Allegro moderato", Some("3-2"), None),
            ]),
        ),
    ];
    let flat = flatten_discogs_tracklist(items);
    assert_eq!(flat.len(), 4);
    assert_eq!(flat[2].0, "I. Lento moderato");
    assert_eq!(flat[3].0, "II. Allegro moderato");
}

#[test]
fn flatten_skips_headings_and_placeholders() {
    let items = vec![
        track("heading", "Side A", None, None),
        track("Track", "One", Some("A1"), None),
        track("track", "[Bonus Album]", None, None),
        track("track", "", None, None),
        DiscogsTrack { title: "Two".into(), position: None, type_: None, sub_tracks: Some(Vec::new()) },
    ];
    let flat = flatten_discogs_tracklist(items);
    assert_eq!(flat, vec![("One".to_string(), Some("A1".to_string())), ("Two".to_string(), None)]);
}

#[test]
fn release_joins_all_styles_as_genre() {
    let styles = Some(vec!["Black Metal".to_string(), "Death Metal".to_string()]);
    assert_eq!(styles_as_genre(&styles).as_deref(), Some("Black Metal, Death Metal"));
    assert_eq!(styles_as_genre(&Some(vec!["  ".to_string()])), None);
    assert_eq!(styles_as_genre(&None), None);
    assert_eq!(
        styles_as_genre(&Some(vec![" Ambient ".into(), "".into(), "Drone".into()])).as_deref(),
        Some("Ambient, Drone")
    );
}

#[test]
fn titles_split_at_dash() {
    assert_eq!(split_discogs_title("Band - Album "), ("Band".to_string(), "Album".to_string()));
    assert_eq!(split_discogs_title(" Album "), (String::new(), "Album".to_string()));
    assert_eq!(discogs_search_query("Band", "Album"), "Band Album");
}

#[test]
fn token_must_not_be_blank() {
    assert_eq!(discogs_token(" abc ").unwrap(), "abc");
    assert_eq!(discogs_token("   ").unwrap_err().message(), "Discogs token is required");
}

#[test]
fn candidates_keep_releases_with_rank() {
    let results = vec![
        DiscogsSearchResult { id: 10, title: "Band - One".into(), type_: Some("release".into()), year: Some("1999".into()) },
        DiscogsSearchResult { id: 11, title: "Band".into(), type_: Some("master".into()), year: None },
        DiscogsSearchResult { id: 12, title: "Two".into(), type_: Some("release".into()), year: Some("n/a".into()) },
    ];
    let c = discogs_candidates(&results, "Ctx Artist", 2);
    assert_eq!(c.len(), 2);
    assert_eq!(c[0].id, "10");
    assert_eq!(c[0].artist_name, "Band");
    assert_eq!(c[0].year, Some(1999));
    assert_eq!(c[0].rank, 15);
    assert_eq!(c[1].artist_name, "Ctx Artist");
    assert_eq!(c[1].year, None);
    assert_eq!(c[1].rank, 17);
}

#[test]
fn release_numbers_playable_tracks() {
    let rel = DiscogsRelease {
        id: 1,
        title: "Album".into(),
        year: Some(2020),
        styles: Some(vec!["Black Metal".into()]),
        artists: Some(vec!["Band".into(), "Guest".into()]),
        tracklist: Some(vec![
            track("heading", "Side A", None, None),
            track("track", "Song", Some("1"), None),
            track("track", "Song 2", Some("2"), None),
        ]),
        images: Some(vec![("other".into(), "u0".into()), ("secondary".into(), "u1".into())]),
    };
    let m = discogs_release(rel);
    assert_eq!(m.artist_name, "Band");
    assert_eq!(m.year, Some(2020));
    assert_eq!(m.genre.as_deref(), Some("Black Metal"));
    assert_eq!(m.cover_url.as_deref(), Some("u1"));
    assert_eq!(m.tracks.len(), 2);
    assert_eq!(m.tracks[1].title, "Song 2");
    assert_eq!(m.tracks[1].track_number, Some(2));
    assert_eq!(m.tracks[1].disc_number, Some(1));
}
