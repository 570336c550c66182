//! Integration routes: the catalog's type filter, and which stored
//! integration a metadata lookup or apply may use.

use vstd::prelude::*;

use crate::api::integrations::IntegrationsCatalogResponse;
use crate::db::integrations::IntegrationRow;
use crate::error::{is_message, ApiError};
use crate::integrations::catalog::{catalog_entries, catalog_provider, entry_is, IntegrationType};

verus! {

/// Query of the integration list and catalog (`?type=`).
#[derive(Debug, Clone)]
pub struct IntegrationsListQuery {
    pub integration_type: Option<String>,
}

/// The catalog type filter: absent, or a known integration type.
pub fn catalog_type_filter(integration_type: Option<&str>) -> (r: Result<Option<IntegrationType>, ApiError>)
    ensures
        integration_type is None ==> r == Ok::<Option<IntegrationType>, ApiError>(None),
        integration_type matches Some(s) ==> (s@ == "tag_source"@ ==> r == Ok::<
            Option<IntegrationType>,
            ApiError,
        >(Some(IntegrationType::TagSource))),
        integration_type matches Some(s) ==> (s@ != "tag_source"@ ==> (r matches Err(e)
            && is_message(e, "invalid type"@))),
{
    match integration_type {
        None => Ok(None),
        Some(s) => match IntegrationType::parse(s) {
            Some(t) => Ok(Some(t)),
            None => Err(ApiError::bad_request("invalid type")),
        },
    }
}

/// The integrations catalog for a query.
pub fn integrations_catalog(q: &IntegrationsListQuery) -> (r: Result<IntegrationsCatalogResponse, ApiError>)
    ensures
        q.integration_type matches Some(s) && s@ != "tag_source"@ ==> (r matches Err(e) && is_message(
            e,
            "invalid type"@,
        )),
        (q.integration_type is None || q.integration_type->0@ == "tag_source"@) ==> (r matches Ok(c)
            && c.items@.len() == 4 && forall|i: int|
            0 <= i < 4 ==> entry_is(#[trigger] c.items@[i], catalog_provider(i))),
{
    let filter = match &q.integration_type {
        None => catalog_type_filter(None),
        Some(s) => catalog_type_filter(Some(s.as_str())),
    };
    match filter {
        Ok(t) => Ok(IntegrationsCatalogResponse { items: catalog_entries(t) }),
        Err(e) => Err(e),
    }
}

/// The integration a lookup or apply runs with: it must exist and be
/// enabled.
pub fn usable_integration(row: Option<IntegrationRow>) -> (r: Result<IntegrationRow, ApiError>)
    ensures
        row is None ==> (r matches Err(e) && is_message(e, "integration not found"@)),
        row matches Some(x) ==> (x.enabled == 0 ==> (r matches Err(e) && is_message(
            e,
            "integration is disabled"@,
        ))),
        row matches Some(x) ==> (x.enabled != 0 ==> r == Ok::<IntegrationRow, ApiError>(x)),
{
    match row {
        None => Err(ApiError::bad_request("integration not found")),
        Some(x) => if x.enabled == 0 {
            Err(ApiError::bad_request("integration is disabled"))
        } else {
            Ok(x)
        },
    }
}

/// The page a lookup fetches: at least the first.
pub fn lookup_page_number(requested: u32) -> (r: u32)
    ensures
        r == if requested >= 1 { requested } else { 1 },
{
    if requested >= 1 {
        requested
    } else {
        1
    }
}

} // verus!
