use euterpe_server::api::torrent::{TorrentConfirmFile, TorrentInspectFile};
use euterpe_server::routes::torrent::{
    audio_format, check_torrent_confirm, detect_post_download_capability, empty_upload_field,
    is_torrent_upload_field, magnet_link, staging_dir, TorrentPostDownload,
};

fn file(index: usize, path: &str) -> TorrentInspectFile {
    TorrentInspectFile { index, path: path.into(), size_bytes: 1, selected: true }
}

#[test]
fn upload_field_and_magnet() {
    assert!(is_torrent_upload_field(Some("file")));
    assert!(!is_torrent_upload_field(Some("torrent")));
    assert!(!is_torrent_upload_field(None));
    assert_eq!(empty_upload_field("file").message(), "upload field 'file' is empty");
    assert_eq!(magnet_link("  magnet:?xt=1 ").unwrap(), "magnet:?xt=1");
    assert_eq!(magnet_link("   ").unwrap_err().message(), "magnet must not be empty");
    assert_eq!(staging_dir("/in", "abc"), "/in/.staging/inspect/abc");
}

#[test]
fn torrent_audio_formats() {
    assert_eq!(audio_format("a/b.FLAC"), Some("flac"));
    assert_eq!(audio_format("b.wave"), Some("wav"));
    assert_eq!(audio_format("b.cue"), None);
    assert_eq!(audio_format("b"), None);
}

#[test]
fn no_capability_without_cue_or_audio() {
    assert!(detect_post_download_capability(&[file(0, "a/1.flac")]).is_none());
    assert!(detect_post_download_capability(&[file(0, "a/x.cue"), file(1, "a/log.txt")]).is_none());
}

#[test]
fn cue_pairs_with_audio_in_same_folder() {
    let files = [
        file(0, "CD1/disc.ape"),
        file(1, "CD2/disc.flac"),
        file(2, "CD2/disc.CUE"),
        file(3, "CD1/disc.cue"),
        file(4, "scans/x.cue"),
    ];
    let cap = detect_post_download_capability(&files).unwrap();
    assert_eq!(cap.cue_candidates.len(), 3);
    assert_eq!(cap.cue_candidates[0].audio_path, "CD2/disc.flac");
    assert!(cap.cue_candidates[0].direct_split_supported);
    assert_eq!(cap.cue_candidates[1].audio_path, "CD1/disc.ape");
    assert_eq!(cap.cue_candidates[1].audio_format, "ape");
    assert!(cap.cue_candidates[1].convert_required_for_split);
    assert_eq!(cap.cue_candidates[2].audio_path, "CD1/disc.ape");
    assert!(cap.has_flac_image_cue);
    assert!(cap.has_convertible_image_cue);
}

#[test]
fn confirm_checks() {
    let files = vec![
        TorrentConfirmFile { index: 0, selected: false },
        TorrentConfirmFile { index: 3, selected: true },
    ];
    assert_eq!(
        check_torrent_confirm(false, true, &files, None).unwrap_err().message(),
        "auto_index_after_import requires copy_to_library"
    );
    assert_eq!(check_torrent_confirm(true, true, &files, None).unwrap(), vec![3]);
    let none = vec![TorrentConfirmFile { index: 0, selected: false }];
    assert_eq!(
        check_torrent_confirm(true, false, &none, None).unwrap_err().message(),
        "at least one file must be selected"
    );
    let post = TorrentPostDownload { split_after_download: true, ..Default::default() };
    assert_eq!(
        check_torrent_confirm(true, false, &files, Some(&post)).unwrap_err().message(),
        "cue_path is required for CUE split"
    );
    let post = TorrentPostDownload {
        split_after_conversion: true,
        cue_path: Some("a.cue".into()),
        ..Default::default()
    };
    assert_eq!(
        check_torrent_confirm(true, false, &files, Some(&post)).unwrap_err().message(),
        "split_after_conversion requires convert_after_download"
    );
    let post = TorrentPostDownload {
        split_after_conversion: true,
        split_after_download: true,
        convert_after_download: true,
        cue_path: Some("a.cue".into()),
        ..Default::default()
    };
    assert_eq!(
        check_torrent_confirm(true, false, &files, Some(&post)).unwrap_err().message(),
        "choose direct split or split after conversion, not both"
    );
    let post = TorrentPostDownload { source_file_policy: Some("burn".into()), ..Default::default() };
    assert_eq!(
        check_torrent_confirm(true, false, &files, Some(&post)).unwrap_err().message(),
        "invalid source_file_policy"
    );
}
