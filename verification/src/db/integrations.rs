//! Rows of configured integrations and how a partial update merges into one.

use vstd::prelude::*;

use crate::integrations::catalog::{IntegrationProvider, IntegrationType};

verus! {

#[derive(Debug, Clone)]
pub struct IntegrationRow {
    pub id: i64,
    pub type_: String,
    pub provider: String,
    pub display_name: String,
    pub enabled: i64,
    pub config_json: String,
    pub config_secrets_enc: Option<String>,
    pub sort_order: i64,
    pub created_at: String,
    pub updated_at: String,
}

pub struct IntegrationInsert<'a> {
    pub type_: IntegrationType,
    pub provider: IntegrationProvider,
    pub display_name: &'a str,
    pub enabled: bool,
    pub config_json: &'a str,
    pub config_secrets_enc: Option<&'a str>,
    pub sort_order: i32,
}

/// A partial update: `None` keeps a field. For the encrypted secrets,
/// `Some(None)` clears them and `Some(Some(s))` replaces them.
pub struct IntegrationUpdate<'a> {
    pub display_name: Option<&'a str>,
    pub enabled: Option<bool>,
    pub config_json: Option<&'a str>,
    pub config_secrets_enc: Option<Option<String>>,
    pub sort_order: Option<i32>,
}

/// The column values an update writes.
pub struct IntegrationWrite {
    pub display_name: String,
    pub enabled: i64,
    pub config_json: String,
    pub config_secrets_enc: Option<String>,
    pub sort_order: i64,
}

/// The stored form of a flag: `1` or `0`.
pub open spec fn flag_column(b: bool) -> i64 {
    if b {
        1
    } else {
        0
    }
}

pub open spec fn opt_text(o: Option<String>) -> Option<Seq<char>> {
    match o {
        Some(s) => Some(s@),
        None => None,
    }
}

/// The values written by `patch` over `existing`: each field the patch sets,
/// else the row's.
pub open spec fn write_matches(w: IntegrationWrite, existing: IntegrationRow, patch: IntegrationUpdate) -> bool {
    &&& w.display_name@ == (match patch.display_name {
        Some(n) => n@,
        None => existing.display_name@,
    })
    &&& w.enabled == (match patch.enabled {
        Some(e) => flag_column(e),
        None => existing.enabled,
    })
    &&& w.config_json@ == (match patch.config_json {
        Some(c) => c@,
        None => existing.config_json@,
    })
    &&& opt_text(w.config_secrets_enc) == (match patch.config_secrets_enc {
        None => opt_text(existing.config_secrets_enc),
        Some(s) => opt_text(s),
    })
    &&& w.sort_order == (match patch.sort_order {
        Some(n) => n as i64,
        None => existing.sort_order,
    })
}

fn clone_opt_string(o: &Option<String>) -> (r: Option<String>)
    ensures
        opt_text(r) == opt_text(*o),
{
    match o {
        Some(s) => Some(s.clone()),
        None => None,
    }
}

/// What an update writes over the existing row (`update` once the row is
/// read).
pub fn integration_write(existing: &IntegrationRow, patch: &IntegrationUpdate) -> (w:
    IntegrationWrite)
    ensures
        write_matches(w, *existing, *patch),
{
    let display_name = match patch.display_name {
        Some(n) => n.to_string(),
        None => existing.display_name.clone(),
    };
    let enabled: i64 = match patch.enabled {
        Some(e) => if e {
            1
        } else {
            0
        },
        None => existing.enabled,
    };
    let config_json = match patch.config_json {
        Some(c) => c.to_string(),
        None => existing.config_json.clone(),
    };
    let config_secrets_enc = match &patch.config_secrets_enc {
        None => clone_opt_string(&existing.config_secrets_enc),
        Some(s) => clone_opt_string(s),
    };
    let sort_order: i64 = match patch.sort_order {
        Some(n) => n as i64,
        None => existing.sort_order,
    };
    IntegrationWrite { display_name, enabled, config_json, config_secrets_enc, sort_order }
}

/// An update that sets nothing writes the row's own values back.
pub proof fn lemma_empty_update_keeps_row(
    w: IntegrationWrite,
    existing: IntegrationRow,
    patch: IntegrationUpdate,
)
    requires
        patch.display_name is None,
        patch.enabled is None,
        patch.config_json is None,
        patch.config_secrets_enc is None,
        patch.sort_order is None,
        write_matches(w, existing, patch),
    ensures
        w.display_name@ == existing.display_name@,
        w.enabled == existing.enabled,
        w.config_json@ == existing.config_json@,
        opt_text(w.config_secrets_enc) == opt_text(existing.config_secrets_enc),
        w.sort_order == existing.sort_order,
{
}

} // verus!
