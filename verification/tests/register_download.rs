use euterpe_server::library::paths::{AlbumPathInfo, TrackPathInfo};
use euterpe_server::library::qobuz_tags::{QobuzAlbumInfo, QobuzTrackInfo};
use euterpe_server::library::register_download::{
    register_album_plan, registration_artist, track_relative_path,
};

fn track(id: u64, title: &str, n: u32, d: u32) -> QobuzTrackInfo {
    QobuzTrackInfo {
        id,
        title: title.into(),
        track_number: Some(n),
        duration: Some(d),
        media_number: None,
        performer_name: None,
        genre_name: None,
        isrc: None,
        composer_name: None,
    }
}

fn sample_album() -> QobuzAlbumInfo {
    QobuzAlbumInfo {
        title: "Test Album".into(),
        artist_name: Some("Artist".into()),
        release_date_original: Some("2020-01-15".into()),
        genre_name: None,
        label_name: None,
    }
}

#[test]
fn relative_track_path_layout() {
    let album = AlbumPathInfo {
        artist_name: Some("AC/DC".into()),
        title: "Back".into(),
        release_date_original: Some("1980-07-25".into()),
    };
    let t = TrackPathInfo { title: "Hells Bells".into(), track_number: Some(1) };
    assert_eq!(track_relative_path(&album, &t, 27), "AC_DC/1980 - Back/01 - Hells Bells.flac");
    assert_eq!(track_relative_path(&album, &t, 5), "AC_DC/1980 - Back/01 - Hells Bells.mp3");
}

#[test]
fn registers_album_and_all_tracks() {
    let tracks = vec![track(1001, "One", 1, 200), track(1002, "Two", 2, 180)];
    let reg = register_album_plan(&sample_album(), &tracks, 99, 27).unwrap().unwrap();
    assert_eq!(reg.artist_name, "Artist");
    assert_eq!(reg.title, "Test Album");
    assert_eq!(reg.year, Some(2020));
    assert_eq!(reg.qobuz_album_id, 99);
    assert_eq!(reg.path, "Artist/2020 - Test Album");
    assert_eq!(reg.tracks.len(), 2);
    assert_eq!(reg.tracks[0].path, "Artist/2020 - Test Album/01 - One.flac");
    assert_eq!(reg.tracks[0].qobuz_track_id, 1001);
    assert_eq!(reg.tracks[1].duration_sec, Some(180));
    assert_eq!(reg.tracks[1].year, Some(2020));
}

#[test]
fn album_without_tracks_registers_nothing() {
    assert!(register_album_plan(&sample_album(), &Vec::new(), 99, 27).unwrap().is_none());
}

#[test]
fn blank_artist_is_unknown() {
    assert_eq!(registration_artist(&Some("  ".into())), "Unknown Artist");
    assert_eq!(registration_artist(&None), "Unknown Artist");
    assert_eq!(registration_artist(&Some(" X ".into())), " X ");
}
