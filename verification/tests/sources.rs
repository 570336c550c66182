use euterpe_server::db::integrations::IntegrationRow;
use euterpe_server::integrations::catalog::IntegrationProvider;
use euterpe_server::integrations::gnudb::{
    gnudb_candidates, gnudb_release, gnudb_server_base, gnudb_toc_candidates, parse_freedb_title,
    text_search_query, toc_query, urlencoding_sim, FreedbEntry, GnudbTrack,
};
use euterpe_server::integrations::musicbrainz::{
    mb_candidates, mb_release, musicbrainz_user_agent, search_query, MbReleaseDetail,
    MbReleaseSummary, MbTrack,
};
use euterpe_server::integrations::provider::lookup_page_result;
use euterpe_server::integrations::registry::{
    invalid_config_json, row_provider, secret_field, secrets_blob, tag_source_settings,
    validate_config, ProviderConfig, ProviderSecrets, TagSourceSettings,
};
use euterpe_server::integrations::tracktype::{
    tracktype_candidates, tracktype_release, tracktype_settings, TrackTypeDetail, TrackTypeResult,
    TrackTypeTrack,
};
use euterpe_server::integrations::types::{AlbumLookupContext, AlbumLookupTrack};

fn ctx(durations: &[Option<i32>]) -> AlbumLookupContext {
    AlbumLookupContext {
        artist_name: "Pg.lost".into(),
        album_title: "In Never Out".into(),
        year: Some(2009),
        tracks: durations
            .iter()
            .map(|d| AlbumLookupTrack { title: "t".into(), track_number: None, duration_sec: *d })
            .collect(),
    }
}

fn row(type_: &str, provider: &str, secrets: Option<&str>) -> IntegrationRow {
    IntegrationRow {
        id: 1,
        type_: type_.into(),
        provider: provider.into(),
        display_name: "x".into(),
        enabled: 1,
        config_json: "{}".into(),
        config_secrets_enc: secrets.map(|s| s.to_string()),
        sort_order: 0,
        created_at: String::new(),
        updated_at: String::new(),
    }
}

#[test]
fn lookup_page_only_first_page_has_candidates() {
    let p = lookup_page_result(0, vec![1, 2]);
    assert_eq!((p.candidates, p.page, p.has_more), (vec![1, 2], 1, false));
    let p = lookup_page_result(3, vec![1, 2]);
    assert_eq!((p.candidates.len(), p.page), (0, 3));
}

#[test]
fn gnudb_server_and_encoding() {
    assert_eq!(gnudb_server_base(None), "http://gnudb.gnudb.org:80");
    assert_eq!(gnudb_server_base(Some(" http://x/ ")), "http://x");
    assert_eq!(gnudb_server_base(Some("  ")), "http://gnudb.gnudb.org:80");
    assert_eq!(urlencoding_sim("a b-c_d.e"), "a%20b-c_d.e");
    assert_eq!(urlencoding_sim("é/\u{20ac}\u{1}"), "%E9%2F%20AC%01");
}

#[test]
fn gnudb_toc_or_text_query() {
    assert_eq!(toc_query(&ctx(&[Some(180), None, Some(0), Some(240)])), "cat=toc&t=180+240");
    assert_eq!(
        toc_query(&ctx(&[None])),
        "cat=album&artist=Pg.lost&title=In%20Never%20Out"
    );
    assert_eq!(text_search_query("A", "B C"), "cat=album&artist=A&title=B%20C");
}

#[test]
fn freedb_titles() {
    assert_eq!(parse_freedb_title("Band / Album", "ctx"), ("Band".into(), "Album".into()));
    assert_eq!(parse_freedb_title("Band - Album", "ctx"), ("Band".into(), "Album".into()));
    assert_eq!(parse_freedb_title(" Album ", "ctx"), ("ctx".into(), "Album".into()));
}

#[test]
fn gnudb_entries_become_candidates() {
    let c = ctx(&[Some(1), Some(2)]);
    let entries = vec![
        FreedbEntry { disc_id: Some("ab12".into()), title: Some("X / Y".into()) },
        FreedbEntry { disc_id: None, title: None },
    ];
    let cands = gnudb_candidates(&entries, &c);
    assert_eq!(cands[0].id, "ab12");
    assert_eq!(cands[0].artist_name, "X");
    assert_eq!(cands[0].track_count, Some(2));
    assert_eq!(cands[1].id, "gnudb-1");
    assert_eq!(cands[1].title, "In Never Out");
    assert_eq!(cands[1].artist_name, "Pg.lost");
    assert_eq!(cands[1].year, Some(2009));
    assert!(gnudb_toc_candidates(Some(Vec::new()), &c).is_none());
    assert!(gnudb_toc_candidates(None, &c).is_none());
    assert_eq!(gnudb_toc_candidates(Some(entries), &c).unwrap().len(), 2);
}

#[test]
fn gnudb_disc_record() {
    let r = gnudb_release(
        Some("Band / Album".into()),
        Some(vec![
            GnudbTrack { title: Some("One".into()), track: None },
            GnudbTrack { title: None, track: Some(7) },
        ]),
    );
    assert_eq!((r.artist_name.as_str(), r.title.as_str()), ("Band", "Album"));
    assert_eq!(r.tracks[0].track_number, Some(1));
    assert_eq!(r.tracks[1].title, "Track 2");
    assert_eq!(r.tracks[1].track_number, Some(7));
    let r = gnudb_release(None, None);
    assert_eq!(r.title, "");
    assert!(r.tracks.is_empty());
}

#[test]
fn musicbrainz_agent_and_query() {
    assert_eq!(musicbrainz_user_agent(" me@x.org ").unwrap(), "Euterpe/0.1 ( me@x.org )");
    assert_eq!(
        musicbrainz_user_agent(" ").unwrap_err().message(),
        "MusicBrainz contact email is required"
    );
    assert_eq!(
        search_query("A \"B\"", "C"),
        "artist:\"A B\" AND release:\"C\""
    );
}

#[test]
fn musicbrainz_candidates_and_release() {
    let rs = vec![
        MbReleaseSummary {
            id: "m1".into(),
            title: "T".into(),
            date: Some("2009-05-01".into()),
            artist_credit: Some(vec!["Credit".into()]),
            track_count: Some(9),
        },
        MbReleaseSummary { id: "m2".into(), title: "U".into(), date: Some("20".into()), artist_credit: None, track_count: None },
    ];
    let c = mb_candidates(&rs, "Ctx");
    assert_eq!((c[0].artist_name.as_str(), c[0].year, c[0].rank), ("Credit", Some(2009), 0));
    assert_eq!((c[1].artist_name.as_str(), c[1].year, c[1].rank), ("Ctx", None, 1));

    let d = MbReleaseDetail {
        title: "Album".into(),
        date: Some("1999".into()),
        artist_credit: None,
        media: Some(vec![
            Some(vec![
                MbTrack { title: "a".into(), position: Some(1), number: None },
                MbTrack { title: "b".into(), position: None, number: Some("B2".into()) },
            ]),
            None,
            Some(vec![MbTrack { title: "c".into(), position: None, number: Some("5".into()) }]),
        ]),
    };
    let r = mb_release(&d);
    assert_eq!(r.year, Some(1999));
    assert_eq!(r.artist_name, "");
    assert_eq!(r.tracks.len(), 3);
    assert_eq!(r.tracks[1].track_number, Some(2));
    assert_eq!(r.tracks[2].track_number, Some(5));
    assert_eq!(r.tracks[2].year, Some(1999));
}

#[test]
fn tracktype_settings_candidates_release() {
    assert_eq!(tracktype_settings(None, Some("  ")), ("https://tracktype.org".to_string(), None));
    assert_eq!(
        tracktype_settings(Some("http://t/"), Some(" k ")),
        ("http://t".to_string(), Some("k".to_string()))
    );
    let c = tracktype_candidates(
        &vec![TrackTypeResult { id: None, artist: None, album: Some("A".into()), year: None }],
        &ctx(&[None]),
    );
    assert_eq!(c[0].id, "tracktype-0");
    assert_eq!(c[0].title, "A");
    assert_eq!(c[0].artist_name, "Pg.lost");
    assert_eq!(c[0].year, Some(2009));
    let r = tracktype_release(&TrackTypeDetail {
        artist: Some("Ar".into()),
        album: None,
        year: Some(2001),
        genre: Some("Rock".into()),
        tracks: vec![TrackTypeTrack { title: None, track_number: None }],
    });
    assert_eq!(r.title, "");
    assert_eq!(r.tracks[0].title, "Track 1");
    assert_eq!(r.tracks[0].year, Some(2001));
    assert_eq!(r.tracks[0].genre.as_deref(), Some("Rock"));
}

#[test]
fn registry_checks_rows_and_settings() {
    assert_eq!(row_provider(&row("tag_source", "gnudb", None)).unwrap(), IntegrationProvider::Gnudb);
    assert_eq!(row_provider(&row("other", "gnudb", None)).unwrap_err().message(), "invalid integration type");
    assert_eq!(row_provider(&row("tag_source", "x", None)).unwrap_err().message(), "unknown provider");
    assert_eq!(invalid_config_json("eof").message(), "invalid config_json: eof");

    let e = secrets_blob(&row("tag_source", "discogs", None), None, "token").unwrap_err();
    assert_eq!(e.message(), "missing secret for token");
    let e = secrets_blob(&row("tag_source", "discogs", Some("blob")), None, "token").unwrap_err();
    assert_eq!(e.message(), "EUTERPE_MASTER_KEY is required for this integration");
    assert_eq!(secret_field(None, "token").unwrap_err().message(), "secret field token missing");

    let cfg = ProviderConfig { contact: Some("me".into()), ..ProviderConfig::default() };
    match tag_source_settings(IntegrationProvider::MusicBrainz, &cfg, None, None).unwrap() {
        TagSourceSettings::MusicBrainz { user_agent } => assert_eq!(user_agent, "Euterpe/0.1 ( me )"),
        other => panic!("unexpected {other:?}"),
    }
    assert!(tag_source_settings(IntegrationProvider::Discogs, &cfg, None, None).is_err());
    assert!(validate_config(IntegrationProvider::MusicBrainz, &ProviderConfig::default(), None, false).is_err());
    let secrets = ProviderSecrets { token: Some("tok".into()), api_key: None };
    assert_eq!(
        validate_config(IntegrationProvider::Discogs, &cfg, Some(&secrets), false).unwrap_err().message(),
        "EUTERPE_MASTER_KEY is required for Discogs"
    );
    assert!(validate_config(IntegrationProvider::Discogs, &cfg, Some(&secrets), true).is_ok());
    assert!(validate_config(IntegrationProvider::Gnudb, &cfg, None, false).is_ok());
}
