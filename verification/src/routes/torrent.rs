//! The torrent routes' decisions: what an upload or magnet must be, which
//! CUE sheets of a torrent can be split after download, and what a confirm
//! request must satisfy.

use vstd::prelude::*;

use crate::api::torrent::{TorrentConfirmFile, TorrentInspectFile};
use crate::error::{is_message, ApiError};
use crate::fspath::{all_components, all_components_exec, extension_lower, extension_lower_exec};
use crate::library::paths::{path_join, path_join_exec};
use crate::text::{append_chars, chars_is, chars_of, deep, str_is, string_of, trim, trim_chars};

verus! {

/// The multipart field a `.torrent` upload comes in: `file`.
pub fn is_torrent_upload_field(name: Option<&str>) -> (r: bool)
    ensures
        r == (name matches Some(n) && n@ == "file"@),
{
    match name {
        Some(n) => str_is(n, "file"),
        None => false,
    }
}

/// The error for an upload field that holds nothing.
pub fn empty_upload_field(name: &str) -> (e: ApiError)
    ensures
        is_message(e, "upload field '"@ + name@ + "' is empty"@),
{
    let mut v = chars_of("upload field '");
    append_chars(&mut v, chars_of(name).as_slice());
    append_chars(&mut v, chars_of("' is empty").as_slice());
    ApiError::Message(string_of(v.as_slice()))
}

/// A magnet link, trimmed; it must not be blank.
pub fn magnet_link(magnet: &str) -> (r: Result<String, ApiError>)
    ensures
        trim(magnet@).len() == 0 ==> (r matches Err(e) && is_message(e, "magnet must not be empty"@)),
        trim(magnet@).len() > 0 ==> (r matches Ok(m) && m@ == trim(magnet@)),
{
    let t = trim_chars(chars_of(magnet).as_slice());
    if t.len() == 0 {
        return Err(ApiError::bad_request("magnet must not be empty"));
    }
    Ok(string_of(t.as_slice()))
}

/// Where an inspected torrent is staged: `.staging/inspect/<id>` under the
/// incoming directory.
pub fn staging_dir(incoming: &str, inspect_id: &str) -> (r: String)
    ensures
        r@ == path_join(path_join(path_join(incoming@, ".staging"@), "inspect"@), inspect_id@),
{
    let a = path_join_exec(chars_of(incoming).as_slice(), chars_of(".staging").as_slice());
    let b = path_join_exec(a.as_slice(), chars_of("inspect").as_slice());
    let c = path_join_exec(b.as_slice(), chars_of(inspect_id).as_slice());
    string_of(c.as_slice())
}

/// The format of a torrent file that a CUE sheet can describe, by its
/// extension (any case); none for other files.
pub open spec fn torrent_audio_format(path: Seq<char>) -> Option<Seq<char>> {
    match extension_lower(path) {
        Some(e) => if e == "flac"@ {
            Some("flac"@)
        } else if e == "wav"@ || e == "wave"@ {
            Some("wav"@)
        } else if e == "ape"@ {
            Some("ape"@)
        } else if e == "m4a"@ || e == "mp4"@ {
            Some("m4a"@)
        } else if e == "wv"@ || e == "wavpack"@ {
            Some("wv"@)
        } else {
            None
        },
        None => None,
    }
}

pub fn audio_format(path: &str) -> (r: Option<&'static str>)
    ensures
        match torrent_audio_format(path@) {
            Some(f) => r matches Some(x) && x@ == f,
            None => r is None,
        },
{
    match extension_lower_exec(chars_of(path).as_slice()) {
        Some(e) => {
            let e = e.as_slice();
            if chars_is(e, "flac") {
                Some("flac")
            } else if chars_is(e, "wav") || chars_is(e, "wave") {
                Some("wav")
            } else if chars_is(e, "ape") {
                Some("ape")
            } else if chars_is(e, "m4a") || chars_is(e, "mp4") {
                Some("m4a")
            } else if chars_is(e, "wv") || chars_is(e, "wavpack") {
                Some("wv")
            } else {
                None
            }
        },
        None => None,
    }
}

/// A CUE sheet of a torrent with the audio file it would split.
#[derive(Debug, Clone)]
pub struct TorrentCueCandidate {
    pub cue_path: String,
    pub audio_path: String,
    pub audio_format: String,
    pub direct_split_supported: bool,
    pub convert_required_for_split: bool,
}

/// What can be done with a torrent's CUE sheets once it is downloaded.
#[derive(Debug, Clone)]
pub struct TorrentPostDownloadCapability {
    pub cue_candidates: Vec<TorrentCueCandidate>,
    pub has_flac_image_cue: bool,
    pub has_convertible_image_cue: bool,
}

pub open spec fn is_cue(path: Seq<char>) -> bool {
    extension_lower(path) == Some("cue"@)
}

/// `Path::parent`, as its components: none for an empty path or the root.
pub open spec fn parent_components(p: Seq<char>) -> Option<Seq<Seq<char>>> {
    let cs = all_components(p);
    if cs.len() == 0 || cs.last() == seq!['/'] {
        None
    } else {
        Some(cs.drop_last())
    }
}

/// Whether a file's folder is the wanted one (`None`: any folder).
pub open spec fn in_folder(p: Seq<char>, want: Option<Option<Seq<Seq<char>>>>) -> bool {
    match want {
        Some(pc) => parent_components(p) == pc,
        None => true,
    }
}

pub open spec fn audio_in(f: TorrentInspectFile, want: Option<Option<Seq<Seq<char>>>>) -> bool {
    torrent_audio_format(f.path@) is Some && in_folder(f.path@, want)
}

/// Index of the first audio file in the wanted folder.
pub open spec fn first_audio_in(files: Seq<TorrentInspectFile>, want: Option<Option<Seq<Seq<char>>>>) -> Option<int>
    decreases files.len(),
{
    if files.len() == 0 {
        None
    } else if audio_in(files[0], want) {
        Some(0)
    } else {
        match first_audio_in(files.drop_first(), want) {
            Some(i) => Some(i + 1),
            None => None,
        }
    }
}

/// The audio file a sheet is split from: the first audio file in the
/// sheet's folder, else the first audio file of the torrent.
pub open spec fn audio_index_for(files: Seq<TorrentInspectFile>, cue: Seq<char>) -> Option<int> {
    match first_audio_in(files, Some(parent_components(cue))) {
        Some(i) => Some(i),
        None => first_audio_in(files, None),
    }
}

proof fn lemma_first_audio_in(files: Seq<TorrentInspectFile>, want: Option<Option<Seq<Seq<char>>>>)
    ensures
        first_audio_in(files, want) matches Some(i) ==> 0 <= i < files.len() && audio_in(files[i], want)
            && forall|j: int| 0 <= j < i ==> !audio_in(#[trigger] files[j], want),
        first_audio_in(files, want) is None ==> forall|j: int|
            0 <= j < files.len() ==> !audio_in(#[trigger] files[j], want),
    decreases files.len(),
{
    if files.len() > 0 {
        lemma_first_audio_in(files.drop_first(), want);
        assert forall|j: int| 1 <= j < files.len() implies files[j] == files.drop_first()[j - 1] by {}
    }
}

/// The candidates of a torrent's files: each CUE sheet, in order, with the
/// audio file it would be split from, where there is one.
pub open spec fn cue_candidates_spec(files: Seq<TorrentInspectFile>, k: int) -> Seq<(Seq<char>, int)>
    decreases k,
{
    if k <= 0 {
        Seq::empty()
    } else {
        let prev = cue_candidates_spec(files, k - 1);
        if is_cue(files[k - 1].path@) {
            match audio_index_for(files, files[k - 1].path@) {
                Some(a) => prev.push((files[k - 1].path@, a)),
                None => prev,
            }
        } else {
            prev
        }
    }
}

pub open spec fn candidate_matches(c: TorrentCueCandidate, files: Seq<TorrentInspectFile>, cue: Seq<char>, a: int) -> bool {
    let fmt = torrent_audio_format(files[a].path@)->0;
    &&& c.cue_path@ == cue
    &&& c.audio_path@ == files[a].path@
    &&& c.audio_format@ == fmt
    &&& c.direct_split_supported == (fmt == "flac"@)
    &&& c.convert_required_for_split == (fmt != "flac"@)
}

fn is_cue_exec(path: &str) -> (r: bool)
    ensures
        r == is_cue(path@),
{
    match extension_lower_exec(chars_of(path).as_slice()) {
        Some(e) => {
            proof {
                reveal_strlit("cue");
            }
            let r = chars_is(e.as_slice(), "cue");
            r
        },
        None => false,
    }
}

fn parent_components_exec(path: &str) -> (r: Option<Vec<Vec<char>>>)
    ensures
        match parent_components(path@) {
            Some(p) => r matches Some(v) && deep(v@) == p,
            None => r is None,
        },
{
    let mut cs = all_components_exec(chars_of(path).as_slice());
    if cs.len() == 0 {
        return None;
    }
    let last = &cs[cs.len() - 1];
    assert(deep(cs@).last() == last@);
    if last.len() == 1 && last[0] == '/' {
        assert(last@ =~= seq!['/']);
        return None;
    }
    assert(last@ == seq!['/'] ==> last@.len() == 1 && last@[0] == '/');
    let ghost before = deep(cs@);
    cs.pop();
    assert(deep(cs@) =~= before.drop_last());
    Some(cs)
}

fn same_parts(x: &Vec<Vec<char>>, y: &Vec<Vec<char>>) -> (r: bool)
    ensures
        r == (deep(x@) == deep(y@)),
{
    if x.len() != y.len() {
        assert(deep(x@).len() != deep(y@).len());
        return false;
    }
    let mut i: usize = 0;
    while i < x.len()
        invariant
            i <= x.len(),
            x.len() == y.len(),
            forall|j: int| 0 <= j < i ==> deep(x@)[j] == deep(y@)[j],
        decreases x.len() - i,
    {
        if !crate::text::seq_equal(x[i].as_slice(), y[i].as_slice()) {
            assert(deep(x@)[i as int] != deep(y@)[i as int]);
            return false;
        }
        i += 1;
    }
    assert(deep(x@) =~= deep(y@));
    true
}

fn same_components(a: &Option<Vec<Vec<char>>>, b: &Option<Vec<Vec<char>>>) -> (r: bool)
    ensures
        r == (match (a, b) {
            (Some(x), Some(y)) => deep(x@) == deep(y@),
            (None, None) => true,
            _ => false,
        }),
{
    match (a, b) {
        (Some(x), Some(y)) => same_parts(x, y),
        (None, None) => true,
        _ => false,
    }
}

fn find_audio(files: &[TorrentInspectFile], cue_path: &str) -> (r: Option<usize>)
    ensures
        r matches Some(i) ==> audio_index_for(files@, cue_path@) == Some(i as int),
        r is None ==> audio_index_for(files@, cue_path@) is None,
        r matches Some(i) ==> i < files@.len() && torrent_audio_format(files@[i as int].path@) is Some,
{
    let cue_parent = parent_components_exec(cue_path);
    let ghost same = Some(parent_components(cue_path@));
    let ghost any: Option<Option<Seq<Seq<char>>>> = None;
    proof {
        lemma_first_audio_in(files@, same);
        lemma_first_audio_in(files@, any);
    }
    let mut first_any: Option<usize> = None;
    let mut i: usize = 0;
    while i < files.len()
        invariant
            i <= files.len(),
            same == Some(parent_components(cue_path@)),
            any == None::<Option<Seq<Seq<char>>>>,
            forall|j: int| 0 <= j < i ==> !audio_in(#[trigger] files@[j], same),
            match first_any {
                Some(k) => k < i && first_audio_in(files@, any) == Some(k as int),
                None => forall|j: int| 0 <= j < i ==> !audio_in(#[trigger] files@[j], any),
            },
            match parent_components(cue_path@) {
                Some(p) => cue_parent matches Some(v) && deep(v@) == p,
                None => cue_parent is None,
            },
            first_audio_in(files@, same) matches Some(k) ==> 0 <= k < files@.len() && audio_in(files@[k], same)
                && forall|j: int| 0 <= j < k ==> !audio_in(#[trigger] files@[j], same),
            first_audio_in(files@, same) is None ==> forall|j: int|
                0 <= j < files@.len() ==> !audio_in(#[trigger] files@[j], same),
            first_audio_in(files@, any) matches Some(k) ==> 0 <= k < files@.len() && audio_in(files@[k], any)
                && forall|j: int| 0 <= j < k ==> !audio_in(#[trigger] files@[j], any),
            first_audio_in(files@, any) is None ==> forall|j: int|
                0 <= j < files@.len() ==> !audio_in(#[trigger] files@[j], any),
        decreases files.len() - i,
    {
        if audio_format(files[i].path.as_str()).is_some() {
            if first_any.is_none() {
                assert(audio_in(files@[i as int], any));
                first_any = Some(i);
            }
            let p = parent_components_exec(files[i].path.as_str());
            if same_components(&p, &cue_parent) {
                assert(audio_in(files@[i as int], same));
                return Some(i);
            }
            assert(!audio_in(files@[i as int], same));
        }
        i += 1;
    }
    first_any
}

/// What a torrent offers for splitting CUE sheets after download (`None`
/// without sheets or audio files): each sheet with its audio file, and
/// whether any of them is a FLAC image (split directly) or another format
/// (converted first).
pub fn detect_post_download_capability(files: &[TorrentInspectFile]) -> (r: Option<
    TorrentPostDownloadCapability,
>)
    ensures
        cue_candidates_spec(files@, files@.len() as int).len() == 0 ==> r is None,
        cue_candidates_spec(files@, files@.len() as int).len() > 0 ==> (r matches Some(cap) && {
            let cs = cue_candidates_spec(files@, files@.len() as int);
            &&& cap.cue_candidates@.len() == cs.len()
            &&& forall|i: int|
                0 <= i < cs.len() ==> candidate_matches(
                    #[trigger] cap.cue_candidates@[i],
                    files@,
                    cs[i].0,
                    cs[i].1,
                )
            &&& cap.has_flac_image_cue == exists|i: int|
                0 <= i < cs.len() && (#[trigger] cap.cue_candidates@[i]).direct_split_supported
            &&& cap.has_convertible_image_cue == exists|i: int|
                0 <= i < cs.len() && (#[trigger] cap.cue_candidates@[i]).convert_required_for_split
        }),
{
    let mut out: Vec<TorrentCueCandidate> = Vec::new();
    let mut flac = false;
    let mut convertible = false;
    let mut k: usize = 0;
    while k < files.len()
        invariant
            k <= files.len(),
            out@.len() == cue_candidates_spec(files@, k as int).len(),
            forall|i: int|
                0 <= i < out@.len() ==> candidate_matches(
                    #[trigger] out@[i],
                    files@,
                    cue_candidates_spec(files@, k as int)[i].0,
                    cue_candidates_spec(files@, k as int)[i].1,
                ),
            flac == exists|i: int| 0 <= i < out@.len() && (#[trigger] out@[i]).direct_split_supported,
            convertible == exists|i: int|
                0 <= i < out@.len() && (#[trigger] out@[i]).convert_required_for_split,
        decreases files.len() - k,
    {
        let ghost prev = cue_candidates_spec(files@, k as int);
        if is_cue_exec(files[k].path.as_str()) {
            match find_audio(files, files[k].path.as_str()) {
                Some(a) => {
                    let fmt = audio_format(files[a].path.as_str()).unwrap();
                    proof {
                        reveal_strlit("flac");
                    }
                    let direct = str_is(fmt, "flac");
                    let c = TorrentCueCandidate {
                        cue_path: files[k].path.clone(),
                        audio_path: files[a].path.clone(),
                        audio_format: fmt.to_string(),
                        direct_split_supported: direct,
                        convert_required_for_split: !direct,
                    };
                    let ghost before = out@;
                    out.push(c);
                    if direct {
                        flac = true;
                    } else {
                        convertible = true;
                    }
                    proof {
                        assert(cue_candidates_spec(files@, k + 1) == prev.push((files@[k as int].path@, a as int)));
                        assert(candidate_matches(c, files@, files@[k as int].path@, a as int));
                        assert(out@[before.len() as int] == c);
                        assert forall|i: int| 0 <= i < out@.len() implies candidate_matches(
                            #[trigger] out@[i],
                            files@,
                            cue_candidates_spec(files@, k + 1)[i].0,
                            cue_candidates_spec(files@, k + 1)[i].1,
                        ) by {
                            if i < before.len() {
                                assert(out@[i] == before[i]);
                            }
                        }
                        if direct {
                            assert(out@[before.len() as int].direct_split_supported);
                        } else {
                            assert(out@[before.len() as int].convert_required_for_split);
                        }
                        assert(flac == exists|i: int| 0 <= i < out@.len() && (#[trigger] out@[i]).direct_split_supported) by {
                            if exists|i: int| 0 <= i < before.len() && (#[trigger] before[i]).direct_split_supported {
                                let i = choose|i: int| 0 <= i < before.len() && (#[trigger] before[i]).direct_split_supported;
                                assert(out@[i] == before[i]);
                            }
                            if exists|i: int| 0 <= i < out@.len() && (#[trigger] out@[i]).direct_split_supported {
                                let i = choose|i: int| 0 <= i < out@.len() && (#[trigger] out@[i]).direct_split_supported;
                                if i < before.len() {
                                    assert(out@[i] == before[i]);
                                }
                            }
                        }
                        assert(convertible == exists|i: int| 0 <= i < out@.len() && (#[trigger] out@[i]).convert_required_for_split) by {
                            if exists|i: int| 0 <= i < before.len() && (#[trigger] before[i]).convert_required_for_split {
                                let i = choose|i: int| 0 <= i < before.len() && (#[trigger] before[i]).convert_required_for_split;
                                assert(out@[i] == before[i]);
                            }
                            if exists|i: int| 0 <= i < out@.len() && (#[trigger] out@[i]).convert_required_for_split {
                                let i = choose|i: int| 0 <= i < out@.len() && (#[trigger] out@[i]).convert_required_for_split;
                                if i < before.len() {
                                    assert(out@[i] == before[i]);
                                }
                            }
                        }
                    }
                },
                None => {},
            }
        }
        k += 1;
    }
    if out.len() == 0 {
        return None;
    }
    Some(
        TorrentPostDownloadCapability {
            cue_candidates: out,
            has_flac_image_cue: flac,
            has_convertible_image_cue: convertible,
        },
    )
}

/// What to do with a torrent's CUE sheet after download.
#[derive(Debug, Clone, Default)]
pub struct TorrentPostDownload {
    pub convert_after_download: bool,
    pub split_after_download: bool,
    pub split_after_conversion: bool,
    pub cue_path: Option<String>,
    pub source_file_policy: Option<String>,
}

/// The file indices a confirm request selects.
pub open spec fn selected_indices(fs: Seq<TorrentConfirmFile>) -> Seq<usize>
    decreases fs.len(),
{
    if fs.len() == 0 {
        Seq::empty()
    } else {
        let r = selected_indices(fs.drop_last());
        if fs.last().selected {
            r.push(fs.last().index)
        } else {
            r
        }
    }
}

/// The checks of `confirm_torrent` before anything is queued: indexing
/// after import needs a copy to the library, at least one file is
/// selected, and the post-download steps are consistent (a split needs a
/// sheet, a split after conversion needs a conversion, a split is direct or
/// after conversion but not both, the source policy is known).
pub open spec fn confirm_spec(
    copy_to_library: bool,
    auto_index: bool,
    files: Seq<TorrentConfirmFile>,
    post: Option<TorrentPostDownload>,
) -> Result<Seq<usize>, Seq<char>> {
    if auto_index && !copy_to_library {
        Err("auto_index_after_import requires copy_to_library"@)
    } else if selected_indices(files).len() == 0 {
        Err("at least one file must be selected"@)
    } else {
        match post {
            Some(p) => if (p.split_after_conversion || p.split_after_download) && p.cue_path is None {
                Err("cue_path is required for CUE split"@)
            } else if p.split_after_conversion && !p.convert_after_download {
                Err("split_after_conversion requires convert_after_download"@)
            } else if p.split_after_download && p.split_after_conversion {
                Err("choose direct split or split after conversion, not both"@)
            } else if p.source_file_policy matches Some(s) && !(s@ == "keep"@ || s@
                == "delete_after_success"@) {
                Err("invalid source_file_policy"@)
            } else {
                Ok(selected_indices(files))
            },
            None => Ok(selected_indices(files)),
        }
    }
}

pub fn check_torrent_confirm(
    copy_to_library: bool,
    auto_index_after_import: bool,
    files: &Vec<TorrentConfirmFile>,
    post: Option<&TorrentPostDownload>,
) -> (r: Result<Vec<usize>, ApiError>)
    ensures
        match confirm_spec(
            copy_to_library,
            auto_index_after_import,
            files@,
            match post {
                Some(p) => Some(*p),
                None => None,
            },
        ) {
            Ok(s) => r matches Ok(v) && v@ == s,
            Err(m) => r matches Err(e) && is_message(e, m),
        },
{
    if auto_index_after_import && !copy_to_library {
        return Err(ApiError::bad_request("auto_index_after_import requires copy_to_library"));
    }
    let mut selected: Vec<usize> = Vec::new();
    let mut i: usize = 0;
    while i < files.len()
        invariant
            i <= files.len(),
            selected@ == selected_indices(files@.take(i as int)),
        decreases files.len() - i,
    {
        assert(files@.take(i + 1).drop_last() =~= files@.take(i as int));
        if files[i].selected {
            selected.push(files[i].index);
        }
        i += 1;
    }
    assert(files@.take(files.len() as int) =~= files@);
    if selected.len() == 0 {
        return Err(ApiError::bad_request("at least one file must be selected"));
    }
    if let Some(p) = post {
        if (p.split_after_conversion || p.split_after_download) && p.cue_path.is_none() {
            return Err(ApiError::bad_request("cue_path is required for CUE split"));
        }
        if p.split_after_conversion && !p.convert_after_download {
            return Err(ApiError::bad_request("split_after_conversion requires convert_after_download"));
        }
        if p.split_after_download && p.split_after_conversion {
            return Err(ApiError::bad_request("choose direct split or split after conversion, not both"));
        }
        if let Some(policy) = &p.source_file_policy {
            if !(str_is(policy.as_str(), "keep") || str_is(policy.as_str(), "delete_after_success")) {
                return Err(ApiError::bad_request("invalid source_file_policy"));
            }
        }
    }
    Ok(selected)
}

} // verus!
