//! Which storage backend a configured library location opens, and with
//! which SMB credentials.

use vstd::prelude::*;

use crate::crypto::{decrypt_spec, MasterKey};
use crate::error::{is_message, ApiError};
use crate::library::tags::opt_view;
use crate::services::app_settings::StorageLocation;
use crate::smb::{format_smb_username, smb_username_spec, SmbCredentials};
use crate::text::str_to_string;

verus! {

/// The backend a library location opens.
#[derive(Debug, Clone)]
pub enum StorageBackendPlan {
    Local { path: String },
    Smb { host: String, port: u16, share: String, path: String, credentials: SmbCredentials },
}

pub open spec fn opt_text(o: Option<String>) -> Seq<char> {
    match o {
        Some(s) => s@,
        None => Seq::empty(),
    }
}

/// The backend of a location: a local directory as configured; an SMB
/// share with the user name qualified by the workgroup and the stored
/// password decrypted with the master key (empty when none is stored;
/// a stored password needs the master key).
pub fn storage_backend_for_location(location: &StorageLocation, master_key: Option<&MasterKey>) -> (r:
    Result<StorageBackendPlan, ApiError>)
    ensures
        location matches StorageLocation::Local { path } ==> (r matches Ok(StorageBackendPlan::Local {
            path: p,
        }) && p@ == path@),
        location matches StorageLocation::Smb { password_encrypted, .. } ==> (
        password_encrypted is Some && master_key is None ==> (r matches Err(e) && is_message(
            e,
            "EUTERPE_MASTER_KEY is required for SMB library storage"@,
        ))),
        location matches StorageLocation::Smb { password_encrypted, .. } ==> (password_encrypted matches Some(enc)
            ==> (master_key matches Some(k) ==> (decrypt_spec(k.key(), enc@) matches Err(m) ==> (r matches Err(
            ApiError::Message(x),
        ) && x@ == m)))),
        r matches Ok(StorageBackendPlan::Smb { host, port, share, path, credentials }) ==> (location matches StorageLocation::Smb {
            host: h,
            port: pt,
            share: s,
            path: pa,
            username,
            password_encrypted,
            workgroup,
        } && host@ == h@ && port == pt && share@ == s@ && path@ == pa@ && credentials.username@
            == smb_username_spec(opt_view(*workgroup), opt_text(*username)) && (match password_encrypted {
            None => credentials.password@ == Seq::<char>::empty(),
            Some(enc) => master_key matches Some(k) && decrypt_spec(k.key(), enc@) == Ok::<
                Seq<char>,
                Seq<char>,
            >(credentials.password@),
        })),
        location is Smb && r is Ok ==> r matches Ok(StorageBackendPlan::Smb { .. }),
        location is Smb && (match location {
            StorageLocation::Smb { password_encrypted, .. } => password_encrypted is None,
            _ => false,
        }) ==> r is Ok,
{
    match location {
        StorageLocation::Local { path } => Ok(StorageBackendPlan::Local { path: path.clone() }),
        StorageLocation::Smb { host, port, share, path, username, password_encrypted, workgroup } => {
            let password = match password_encrypted {
                Some(value) => match master_key {
                    None => {
                        return Err(
                            ApiError::Message(
                                str_to_string("EUTERPE_MASTER_KEY is required for SMB library storage"),
                            ),
                        );
                    },
                    Some(k) => match k.decrypt(value.as_str()) {
                        Ok(p) => p,
                        Err(e) => return Err(e),
                    },
                },
                None => String::new(),
            };
            let user_text = match username {
                Some(u) => u.as_str(),
                None => "",
            };
            proof {
                reveal_strlit("");
            }
            let wg = match workgroup {
                Some(w) => Some(w.as_str()),
                None => None,
            };
            let name = format_smb_username(wg, user_text);
            Ok(
                StorageBackendPlan::Smb {
                    host: host.clone(),
                    port: *port,
                    share: share.clone(),
                    path: path.clone(),
                    credentials: SmbCredentials { username: name, password },
                },
            )
        },
    }
}

} // verus!
