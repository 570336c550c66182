//! Conversion endpoints.

use vstd::prelude::*;

verus! {

#[derive(Debug, Clone)]
pub struct ConvertAlbumResponse {
    pub job_id: i64,
}

} // verus!
