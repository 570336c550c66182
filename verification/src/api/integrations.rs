//! Integration endpoints: the catalog, metadata lookups and applying a release.

use vstd::prelude::*;

use crate::integrations::catalog::IntegrationCatalogEntry;

verus! {

#[derive(Debug, Clone)]
pub struct IntegrationsCatalogResponse {
    pub items: Vec<IntegrationCatalogEntry>,
}

#[derive(Debug, Clone)]
pub struct AlbumMetadataLookupRequest {
    pub integration_id: i64,
    pub page: u32,
}

#[derive(Debug, Clone)]
pub struct AlbumMetadataApplyRequest {
    pub integration_id: i64,
    pub candidate_id: String,
}

#[derive(Debug, Clone)]
pub struct AlbumMetadataApplyResponse {
    pub tracks_updated: u32,
    pub cover_applied: bool,
    pub warnings: Vec<String>,
}

/// The page a metadata lookup asks for when the request names none.
pub fn default_lookup_page() -> (r: u32)
    ensures
        r == 1,
{
    1
}

} // verus!
