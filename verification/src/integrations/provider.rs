//! What every tag source answers a lookup with.

use vstd::prelude::*;

verus! {

/// One page of lookup candidates.
#[derive(Debug, Clone)]
pub struct LookupPage<T> {
    pub candidates: Vec<T>,
    pub page: u32,
    pub has_more: bool,
}

/// The answer of a source that returns all its candidates at once: they
/// fill the first page (page 0 counting as page 1), later pages are empty,
/// and there is never more.
pub fn lookup_page_result<T>(page: u32, candidates: Vec<T>) -> (r: LookupPage<T>)
    ensures
        r.candidates@ == (if page <= 1 {
            candidates@
        } else {
            Seq::empty()
        }),
        r.page == (if page < 1 {
            1
        } else {
            page
        }),
        !r.has_more,
{
    LookupPage {
        candidates: if page <= 1 {
            candidates
        } else {
            Vec::new()
        },
        page: if page < 1 {
            1
        } else {
            page
        },
        has_more: false,
    }
}

} // verus!
