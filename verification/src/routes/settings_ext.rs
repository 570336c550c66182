//! Storage settings: what a change of backend tells the user, which stored
//! SMB secrets a request may reuse, and how patches become locations.

use vstd::prelude::*;

use crate::api::settings::{
    location_kind, DownloadsSettingsPatch, LibraryScanSettingsPatch,
    QobuzScheduledSyncSettingsPatch, SmbSharesRequest, StorageLocationPatch, StorageSettingsResponse,
    StorageSettingsView, StringPatchField,
};
use crate::error::{is_message, ApiError};
use crate::fspath::{components, components_exec, is_parent_dir, is_parent_dir_exec};
use crate::library::storage::{has_dotdot, join_slash};
use crate::library::tags::{clone_opt, opt_view};
use crate::services::app_settings::{
    DownloadsSettings, LibraryScanSettings, QobuzScheduledSyncSettings, StorageLocation,
    StorageSettings,
};
use crate::services::storage_watch::StorageWatchStatus;
use crate::smb::{format_smb_username, smb_username_spec, SmbCredentials};
use crate::text::{
    chars_of, deep, eq_ignore_case, eq_ignore_case_str, join_with, replace_char,
    replace_char_chars, str_is, str_to_string, string_of, trim, trim_chars,
};

verus! {

pub fn storage_location_kind(location: &StorageLocation) -> (r: &'static str)
    ensures
        r@ == location_kind(*location),
{
    match location {
        StorageLocation::Local { .. } => "local",
        StorageLocation::Smb { .. } => "smb",
    }
}

/// The hint shown when the library moves from one storage backend to the
/// other, and whether a full scan is recommended (always, on a change).
pub open spec fn migration_spec(previous: StorageSettings, next: StorageSettings) -> Option<Seq<char>> {
    match (previous.library, next.library) {
        (Some(old), Some(new)) => if location_kind(old) == location_kind(new) {
            None
        } else if old is Local {
            Some(
                "Library storage switched from local disk to SMB. Run a full library scan to rebuild the index."@,
            )
        } else {
            Some(
                "Library storage switched from SMB to local disk. Run a full library scan to rebuild the index."@,
            )
        },
        _ => None,
    }
}

pub fn storage_kind_migration(previous: &StorageSettings, next: &StorageSettings) -> (r: Option<
    (String, bool),
>)
    ensures
        match migration_spec(*previous, *next) {
            Some(h) => r matches Some((hint, full)) && hint@ == h && full,
            None => r is None,
        },
{
    proof {
        reveal_strlit("local");
        reveal_strlit("smb");
        assert("local"@.len() != "smb"@.len());
    }
    let (old, new) = match (&previous.library, &next.library) {
        (Some(o), Some(n)) => (o, n),
        _ => {
            return None;
        },
    };
    match (old, new) {
        (StorageLocation::Local { .. }, StorageLocation::Smb { .. }) => Some(
            (
                str_to_string(
                    "Library storage switched from local disk to SMB. Run a full library scan to rebuild the index.",
                ),
                true,
            ),
        ),
        (StorageLocation::Smb { .. }, StorageLocation::Local { .. }) => Some(
            (
                str_to_string(
                    "Library storage switched from SMB to local disk. Run a full library scan to rebuild the index.",
                ),
                true,
            ),
        ),
        _ => None,
    }
}

/// The settings response: the settings as shown, with the migration hint
/// and scan recommendation where the backend changed.
pub fn storage_settings_response(
    settings: &StorageSettings,
    watch_status: StorageWatchStatus,
    migration: Option<(String, bool)>,
) -> (r: StorageSettingsResponse)
    ensures
        match migration {
            Some((h, f)) => opt_view(r.storage_migration_hint) == Some(h@) && r.recommend_full_scan
                == Some(f),
            None => r.storage_migration_hint is None && r.recommend_full_scan is None,
        },
{
    let (storage_migration_hint, recommend_full_scan) = match migration {
        Some((hint, recommend)) => (Some(hint), Some(recommend)),
        None => (None, None),
    };
    StorageSettingsResponse {
        settings: StorageSettingsView::from_with_watch_status(settings, watch_status),
        storage_migration_hint,
        recommend_full_scan,
    }
}

/// Host names compare without regard to ASCII case.
pub fn hosts_match(stored: &str, requested: &str) -> (r: bool)
    ensures
        r == eq_ignore_case(stored@, requested@),
{
    eq_ignore_case_str(stored, requested)
}

pub open spec fn endpoint_matches(
    stored_host: Seq<char>,
    stored_port: u16,
    stored_share: Seq<char>,
    host: Seq<char>,
    port: u16,
    share: Seq<char>,
) -> bool {
    eq_ignore_case(stored_host, host) && stored_port == port && eq_ignore_case(stored_share, share)
}

/// The same share: host and share name equal but for ASCII case, and the
/// same port.
pub fn smb_endpoint_matches(
    stored_host: &str,
    stored_port: u16,
    stored_share: &str,
    requested_host: &str,
    requested_port: u16,
    requested_share: &str,
) -> (r: bool)
    ensures
        r == endpoint_matches(
            stored_host@,
            stored_port,
            stored_share@,
            requested_host@,
            requested_port,
            requested_share@,
        ),
{
    hosts_match(stored_host, requested_host) && stored_port == requested_port
        && eq_ignore_case_str(stored_share, requested_share)
}

/// What an SMB patch inherits from the current library location: the
/// stored password only for the same share, the user name and workgroup
/// for any SMB location.
pub fn current_smb_defaults_for_patch(
    current: &StorageSettings,
    requested_host: &str,
    requested_port: u16,
    requested_share: &str,
) -> (r: (Option<String>, Option<String>, Option<String>))
    ensures
        match current.library {
            Some(StorageLocation::Smb { host, port, share, password_encrypted, username, workgroup, .. }) => {
                &&& opt_view(r.0) == (if endpoint_matches(
                    host@,
                    port,
                    share@,
                    requested_host@,
                    requested_port,
                    requested_share@,
                ) {
                    opt_view(password_encrypted)
                } else {
                    None
                })
                &&& opt_view(r.1) == opt_view(username)
                &&& opt_view(r.2) == opt_view(workgroup)
            },
            _ => r.0 is None && r.1 is None && r.2 is None,
        },
{
    match &current.library {
        Some(StorageLocation::Smb { host, port, share, password_encrypted, username, workgroup, .. }) => {
            let password = if smb_endpoint_matches(
                host.as_str(),
                *port,
                share.as_str(),
                requested_host,
                requested_port,
                requested_share,
            ) {
                clone_opt(password_encrypted)
            } else {
                None
            };
            (password, clone_opt(username), clone_opt(workgroup))
        },
        _ => (None, None, None),
    }
}

pub open spec fn nonempty(o: Option<String>) -> bool {
    o matches Some(s) && s@.len() > 0
}

/// The stored password a share listing decrypts: the saved library's, when
/// the request brings none and names the saved host and port.
pub open spec fn stored_password_to_use(body: SmbSharesRequest, stored: Option<StorageLocation>) -> Option<Seq<char>> {
    if nonempty(body.password) {
        None
    } else {
        match stored {
            Some(StorageLocation::Smb { host, port, password_encrypted, .. }) => if eq_ignore_case(
                host@,
                body.host@,
            ) && port == body.port {
                match password_encrypted {
                    Some(e) => Some(e@),
                    None => None,
                }
            } else {
                None
            },
            _ => None,
        }
    }
}

/// The password a share listing sends without decrypting: the request's
/// when it brings one, else none.
pub open spec fn direct_password(body: SmbSharesRequest) -> Seq<char> {
    if nonempty(body.password) {
        body.password->0@
    } else {
        Seq::empty()
    }
}

/// Whether a share listing takes the saved library's user and workgroup:
/// the request names no user, and the saved location is on the same host
/// and port.
pub open spec fn uses_stored_user(body: SmbSharesRequest, stored: Option<StorageLocation>) -> bool {
    !nonempty(body.username) && match stored {
        Some(StorageLocation::Smb { host, port, .. }) => eq_ignore_case(host@, body.host@) && port
            == body.port,
        _ => false,
    }
}

pub open spec fn merged_user(body: SmbSharesRequest, stored: Option<StorageLocation>) -> Option<
    Seq<char>,
> {
    if uses_stored_user(body, stored) {
        opt_view(stored->Some_0->Smb_username)
    } else {
        opt_view(body.username)
    }
}

pub open spec fn merged_workgroup(body: SmbSharesRequest, stored: Option<StorageLocation>) -> Option<
    Seq<char>,
> {
    if uses_stored_user(body, stored) {
        opt_view(stored->Some_0->Smb_workgroup)
    } else {
        opt_view(body.workgroup)
    }
}

/// The user name a share listing sends: the request's user (with its
/// workgroup) when it names one, else the saved library's for the same
/// host and port, else the request's.
pub open spec fn merged_username(body: SmbSharesRequest, stored: Option<StorageLocation>) -> Seq<char> {
    smb_username_spec(
        merged_workgroup(body, stored),
        match merged_user(body, stored) {
            Some(x) => x,
            None => Seq::empty(),
        },
    )
}

fn opt_str(o: &Option<String>) -> (r: Option<&str>)
    ensures
        match *o {
            Some(s) => r matches Some(t) && t@ == s@,
            None => r is None,
        },
{
    match o {
        Some(s) => Some(s.as_str()),
        None => None,
    }
}

/// Credentials for listing the shares of a server (`smb_shares_credentials`
/// with the saved library location and a decryption function).
pub fn merge_smb_shares_credentials<F: FnOnce(&str) -> Result<String, ApiError>>(
    body: &SmbSharesRequest,
    stored: Option<&StorageLocation>,
    decrypt_password: F,
) -> (r: Result<SmbCredentials, ApiError>)
    requires
        forall|s: &str| decrypt_password.requires((s,)),
    ensures
        ({
            let st = match stored {
                Some(l) => Some(*l),
                None => None,
            };
            match stored_password_to_use(*body, st) {
                None => r matches Ok(c) && c.password@ == direct_password(*body) && c.username@
                    == merged_username(*body, st),
                Some(enc) => exists|s: &str, res: Result<String, ApiError>|
                    s@ == enc && decrypt_password.ensures((s,), res) && match res {
                        Ok(p) => r matches Ok(c) && c.password@ == p@ && c.username@
                            == merged_username(*body, st),
                        Err(e) => r == Err::<SmbCredentials, ApiError>(e),
                    },
            }
        }),
{
    let body_user_given = match &body.username {
        Some(u) => !u.as_str().is_empty(),
        None => false,
    };
    let (username, workgroup) = if body_user_given {
        (clone_opt(&body.username), clone_opt(&body.workgroup))
    } else {
        match stored {
            Some(StorageLocation::Smb { host, port, username, workgroup, .. }) => {
                if hosts_match(host.as_str(), body.host.as_str()) && *port == body.port {
                    (clone_opt(username), clone_opt(workgroup))
                } else {
                    (clone_opt(&body.username), clone_opt(&body.workgroup))
                }
            },
            _ => (clone_opt(&body.username), clone_opt(&body.workgroup)),
        }
    };
    let user: &str = match &username {
        Some(u) => u.as_str(),
        None => "",
    };
    let ghost st = match stored {
        Some(l) => Some(*l),
        None => None::<StorageLocation>,
    };
    assert(opt_view(username) == merged_user(*body, st));
    assert(opt_view(workgroup) == merged_workgroup(*body, st));
    proof {
        reveal_strlit("");
    }
    assert(user@ == match opt_view(username) {
        Some(x) => x,
        None => Seq::<char>::empty(),
    });
    let wg_ref = opt_str(&workgroup);
    assert(match wg_ref {
        Some(w) => Some(w@),
        None => None::<Seq<char>>,
    } == opt_view(workgroup));
    let name = format_smb_username(wg_ref, user);
    assert(name@ == merged_username(*body, st));
    let body_pw_given = match &body.password {
        Some(p) => !p.as_str().is_empty(),
        None => false,
    };
    if body_pw_given {
        let password = body.password.as_ref().unwrap().clone();
        return Ok(SmbCredentials { username: name, password });
    }
    match stored {
        Some(StorageLocation::Smb { host, port, password_encrypted: Some(encrypted), .. }) => {
            if hosts_match(host.as_str(), body.host.as_str()) && *port == body.port {
                let s = encrypted.as_str();
                let res = decrypt_password(s);
                let ghost outcome = res;
                assert(decrypt_password.ensures((s,), outcome));
                match res {
                    Ok(p) => Ok(SmbCredentials { username: name, password: p }),
                    Err(e) => Err(e),
                }
            } else {
                Ok(SmbCredentials { username: name, password: String::new() })
            }
        },
        _ => Ok(SmbCredentials { username: name, password: String::new() }),
    }
}

/// What `normalize_browse_path` makes of a browse path: `\` read as `/`;
/// blank for none; refused when absolute or holding `..`; otherwise its
/// components joined by `/`.
pub open spec fn browse_path_spec(path: Option<Seq<char>>) -> Result<Seq<char>, Seq<char>> {
    match path {
        None => Ok(Seq::empty()),
        Some(p) => {
            let n = replace_char(p, '\\', '/');
            if trim(n).len() == 0 {
                Ok(Seq::empty())
            } else if n[0] == '/' {
                Err("storage path must be relative"@)
            } else if has_dotdot(components(n)) {
                Err("storage path must not contain .."@)
            } else {
                Ok(join_with(components(n), '/'))
            }
        },
    }
}

pub fn normalize_browse_path(path: Option<&str>) -> (r: Result<String, ApiError>)
    ensures
        match browse_path_spec(
            match path {
                Some(p) => Some(p@),
                None => None,
            },
        ) {
            Ok(s) => r matches Ok(t) && t@ == s,
            Err(m) => r matches Err(e) && is_message(e, m),
        },
{
    let p = match path {
        Some(p) => p,
        None => {
            return Ok(String::new());
        },
    };
    let v = chars_of(p);
    let n = replace_char_chars(v.as_slice(), '\\', '/');
    let t = trim_chars(n.as_slice());
    if t.len() == 0 {
        return Ok(String::new());
    }
    if n[0] == '/' {
        return Err(ApiError::bad_request("storage path must be relative"));
    }
    let cs = components_exec(n.as_slice());
    let mut i: usize = 0;
    while i < cs.len()
        invariant
            i <= cs.len(),
            deep(cs@) == components(n@),
            n@ == replace_char(p@, '\\', '/'),
            path == Some(p),
            trim(n@).len() > 0,
            n@[0] != '/',
            forall|j: int| 0 <= j < i ==> deep(cs@)[j] != seq!['.', '.'],
        decreases cs.len() - i,
    {
        assert(deep(cs@)[i as int] == cs@[i as int]@);
        if is_parent_dir_exec(cs[i].as_slice()) {
            assert(deep(cs@)[i as int] == seq!['.', '.']);
            assert(has_dotdot(components(n@)));
            assert(browse_path_spec(Some(p@)) == Err::<Seq<char>, Seq<char>>(
                "storage path must not contain .."@,
            ));
            return Err(ApiError::bad_request("storage path must not contain .."));
        }
        i += 1;
    }
    let joined = join_slash(&cs);
    Ok(string_of(joined.as_slice()))
}

/// The value a string patch field leaves: a non-empty given value; none
/// for an empty value or null; the current value when left out.
pub open spec fn patched_field(f: StringPatchField, current: Option<Seq<char>>) -> Option<Seq<char>> {
    match f {
        StringPatchField::Value(v) => if v@.len() > 0 {
            Some(v@)
        } else {
            None
        },
        StringPatchField::Clear => None,
        StringPatchField::Missing => current,
    }
}

fn apply_field(f: StringPatchField, current: Option<String>) -> (r: Option<String>)
    ensures
        opt_view(r) == patched_field(f, opt_view(current)),
{
    match f {
        StringPatchField::Value(v) => {
            if v.as_str().is_empty() {
                None
            } else {
                Some(v)
            }
        },
        StringPatchField::Clear => None,
        StringPatchField::Missing => current,
    }
}

/// An SMB location with these fields and the browse-normalized `path`.
pub open spec fn smb_location_is(
    l: StorageLocation,
    host: Seq<char>,
    port: u16,
    share: Seq<char>,
    path: Seq<char>,
    username: Option<Seq<char>>,
    password_encrypted: Option<Seq<char>>,
    workgroup: Option<Seq<char>>,
) -> bool {
    match l {
        StorageLocation::Smb { host: h, port: p, share: s, path: pa, username: u, password_encrypted: pw, workgroup: wg } => {
            &&& h@ == host
            &&& p == port
            &&& s@ == share
            &&& pa@ == path
            &&& opt_view(u) == username
            &&& opt_view(pw) == password_encrypted
            &&& opt_view(wg) == workgroup
        },
        _ => false,
    }
}

/// The outcome of an SMB patch once its password is settled: refused for
/// an unusable path, else the location.
pub open spec fn smb_patch_outcome(
    r: Result<StorageLocation, ApiError>,
    host: Seq<char>,
    port: u16,
    share: Seq<char>,
    path: Seq<char>,
    username: Option<Seq<char>>,
    password_encrypted: Option<Seq<char>>,
    workgroup: Option<Seq<char>>,
) -> bool {
    match browse_path_spec(Some(path)) {
        Ok(np) => r matches Ok(l) && smb_location_is(
            l,
            host,
            port,
            share,
            np,
            username,
            password_encrypted,
            workgroup,
        ),
        Err(m) => r matches Err(e) && is_message(e, m),
    }
}

/// The location a storage patch asks for (`storage_location_patch_to_location`
/// with `encrypt` standing for the master key): a local path as given; for
/// SMB, user name and workgroup patched over the current ones, a new
/// non-empty password encrypted, a left-out password kept only for the same
/// share, and the path normalized.
pub fn storage_location_patch_to_location<F: FnOnce(&str) -> Result<String, ApiError>>(
    current: &StorageSettings,
    patch: StorageLocationPatch,
    encrypt: F,
) -> (r: Result<StorageLocation, ApiError>)
    requires
        forall|s: &str| encrypt.requires((s,)),
    ensures
        match patch {
            StorageLocationPatch::Local { path } => r matches Ok(l) && l matches StorageLocation::Local {
                path: p,
            } && p@ == path@,
            StorageLocationPatch::Smb { host, port, share, path, username, password, workgroup } => {
                let cur = current_defaults_spec(*current, host@, port, share@);
                let user = patched_field(username, cur.1);
                let wg = patched_field(workgroup, cur.2);
                match password {
                    StringPatchField::Value(pw) => if pw@.len() > 0 {
                        exists|s: &str, res: Result<String, ApiError>|
                            s@ == pw@ && encrypt.ensures((s,), res) && match res {
                                Ok(enc) => smb_patch_outcome(
                                    r,
                                    host@,
                                    port,
                                    share@,
                                    path@,
                                    user,
                                    Some(enc@),
                                    wg,
                                ),
                                Err(e) => r == Err::<StorageLocation, ApiError>(e),
                            }
                    } else {
                        smb_patch_outcome(r, host@, port, share@, path@, user, None, wg)
                    },
                    StringPatchField::Clear => smb_patch_outcome(
                        r,
                        host@,
                        port,
                        share@,
                        path@,
                        user,
                        None,
                        wg,
                    ),
                    StringPatchField::Missing => smb_patch_outcome(
                        r,
                        host@,
                        port,
                        share@,
                        path@,
                        user,
                        cur.0,
                        wg,
                    ),
                }
            },
        },
{
    match patch {
        StorageLocationPatch::Local { path } => Ok(StorageLocation::Local { path }),
        StorageLocationPatch::Smb { host, port, share, path, username, password, workgroup } => {
            let (cur_pw, cur_user, cur_wg) = current_smb_defaults_for_patch(
                current,
                host.as_str(),
                port,
                share.as_str(),
            );
            let password_encrypted = match password {
                StringPatchField::Value(pw) => {
                    if pw.as_str().is_empty() {
                        None
                    } else {
                        let s = pw.as_str();
                        let res = encrypt(s);
                        match res {
                            Ok(enc) => Some(enc),
                            Err(e) => {
                                return Err(e);
                            },
                        }
                    }
                },
                StringPatchField::Clear => None,
                StringPatchField::Missing => cur_pw,
            };
            let username = apply_field(username, cur_user);
            let workgroup = apply_field(workgroup, cur_wg);
            let np = match normalize_browse_path(Some(path.as_str())) {
                Ok(np) => np,
                Err(e) => {
                    return Err(e);
                },
            };
            Ok(
                StorageLocation::Smb {
                    host,
                    port,
                    share,
                    path: np,
                    username,
                    password_encrypted,
                    workgroup,
                },
            )
        },
    }
}

/// The inherited password, user name and workgroup of an SMB patch
/// (`current_smb_defaults_for_patch`).
pub open spec fn current_defaults_spec(
    current: StorageSettings,
    host: Seq<char>,
    port: u16,
    share: Seq<char>,
) -> (Option<Seq<char>>, Option<Seq<char>>, Option<Seq<char>>) {
    match current.library {
        Some(StorageLocation::Smb { host: h, port: p, share: s, password_encrypted, username, workgroup, .. }) => (
            if endpoint_matches(h@, p, s@, host, port, share) {
                opt_view(password_encrypted)
            } else {
                None
            },
            opt_view(username),
            opt_view(workgroup),
        ),
        _ => (None, None, None),
    }
}

/// A field after a patch: the patch's value when it gives one.
pub open spec fn patched<T>(old: T, p: Option<T>) -> T {
    match p {
        Some(v) => v,
        None => old,
    }
}

/// The library scan settings after a patch: each field the patch gives is
/// replaced, the others stay.
pub open spec fn scan_patched(s: LibraryScanSettings, p: LibraryScanSettingsPatch) -> LibraryScanSettings {
    LibraryScanSettings {
        worker_total: patched(s.worker_total, p.worker_total),
        enum_workers: patched(s.enum_workers, p.enum_workers),
        process_workers: patched(s.process_workers, p.process_workers),
        seed_depth: patched(s.seed_depth, p.seed_depth),
        index_queue_capacity: patched(s.index_queue_capacity, p.index_queue_capacity),
        path_queue_capacity: patched(s.path_queue_capacity, p.path_queue_capacity),
    }
}

pub fn apply_library_scan_patch(settings: &LibraryScanSettings, patch: &LibraryScanSettingsPatch) -> (r:
    LibraryScanSettings)
    ensures
        r == scan_patched(*settings, *patch),
{
    LibraryScanSettings {
        worker_total: match patch.worker_total {
            Some(v) => v,
            None => settings.worker_total,
        },
        enum_workers: match patch.enum_workers {
            Some(v) => v,
            None => settings.enum_workers,
        },
        process_workers: match patch.process_workers {
            Some(v) => v,
            None => settings.process_workers,
        },
        seed_depth: match patch.seed_depth {
            Some(v) => v,
            None => settings.seed_depth,
        },
        index_queue_capacity: match patch.index_queue_capacity {
            Some(v) => v,
            None => settings.index_queue_capacity,
        },
        path_queue_capacity: match patch.path_queue_capacity {
            Some(v) => v,
            None => settings.path_queue_capacity,
        },
    }
}

/// Applying the same scan settings patch twice changes nothing more than
/// applying it once, and an empty patch changes nothing.
pub proof fn lemma_scan_patch_idempotent(s: LibraryScanSettings, p: LibraryScanSettingsPatch)
    ensures
        scan_patched(scan_patched(s, p), p) == scan_patched(s, p),
        (p.worker_total is None && p.enum_workers is None && p.process_workers is None
            && p.seed_depth is None && p.index_queue_capacity is None && p.path_queue_capacity
            is None) ==> scan_patched(s, p) == s,
{
}

pub fn apply_downloads_patch(settings: &DownloadsSettings, patch: &DownloadsSettingsPatch) -> (r:
    DownloadsSettings)
    ensures
        r.concurrency == patched(settings.concurrency, patch.concurrency),
{
    DownloadsSettings {
        concurrency: match patch.concurrency {
            Some(v) => v,
            None => settings.concurrency,
        },
    }
}

/// The sync settings after a patch, before they are normalized.
pub fn apply_qobuz_sync_patch(settings: &QobuzScheduledSyncSettings, patch: &QobuzScheduledSyncSettingsPatch) -> (r:
    QobuzScheduledSyncSettings)
    ensures
        r.enabled == patched(settings.enabled, patch.enabled),
        r.cron_expression@ == (match patch.cron_expression {
            Some(c) => c@,
            None => settings.cron_expression@,
        }),
        r.auto_download_new_favorites == patched(
            settings.auto_download_new_favorites,
            patch.auto_download_new_favorites,
        ),
{
    QobuzScheduledSyncSettings {
        enabled: match patch.enabled {
            Some(v) => v,
            None => settings.enabled,
        },
        cron_expression: match &patch.cron_expression {
            Some(c) => c.clone(),
            None => settings.cron_expression.clone(),
        },
        auto_download_new_favorites: match patch.auto_download_new_favorites {
            Some(v) => v,
            None => settings.auto_download_new_favorites,
        },
    }
}

/// Query of the storage browser.
#[derive(Debug, Clone)]
pub struct StorageBrowseQuery {
    pub target: String,
    pub path: Option<String>,
}

/// The library location a browse request lists: only `target=library` is
/// served, and only when library storage is configured.
pub fn browse_target<'a>(target: &str, library: Option<&'a StorageLocation>) -> (r: Result<
    &'a StorageLocation,
    ApiError,
>)
    ensures
        target@ != "library"@ ==> (r matches Err(e) && is_message(
            e,
            "only target=library is supported"@,
        )),
        target@ == "library"@ && library is None ==> (r matches Err(e) && is_message(
            e,
            "library storage is not configured"@,
        )),
        target@ == "library"@ && library is Some ==> (r matches Ok(l) && l == library->0),
{
    if !str_is(target, "library") {
        return Err(ApiError::bad_request("only target=library is supported"));
    }
    match library {
        Some(l) => Ok(l),
        None => Err(ApiError::bad_request("library storage is not configured")),
    }
}

} // verus!
