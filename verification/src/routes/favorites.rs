//! Qobuz favorites routes and the public server description: what a
//! favorites listing asks the store for, which mutations are refused, and
//! which storage details are public.

use vstd::prelude::*;

use crate::api::keyset::{effective_limit, order_named, parse_limit, SortOrder};
use crate::api::settings::StorageLocationView;
use crate::db::favorites::{favorites_sort_named, FavoritesSort};
use crate::error::{is_message, ApiError};
use crate::text::{dec_nat, str_is, str_to_string};

verus! {

/// Query of the favorites listing.
#[derive(Debug, Clone)]
pub struct FavoritesQuery {
    pub entity_type: String,
    pub limit: u32,
    pub sort: String,
    pub order: Option<String>,
    pub cursor: Option<String>,
    pub q: Option<String>,
    pub in_library: Option<bool>,
}

/// The page size of a favorites listing when the query gives none.
pub fn default_favorites_limit() -> (r: u32)
    ensures
        r == 50,
{
    50
}

/// The sort of a favorites listing when the query gives none.
pub fn default_favorites_sort() -> (r: String)
    ensures
        r@ == "title"@,
{
    str_to_string("title")
}

/// What a favorites listing asks the store for.
#[derive(Debug, Clone, Copy)]
pub struct FavoritesPlan {
    pub sort: FavoritesSort,
    pub order: SortOrder,
    pub limit: u32,
}

/// The listing a favorites query asks for, checked in the order the route
/// checks it: only albums, a page size of 1 to 500 (50 when none is
/// given), a known sort, and an order of `asc` (the default) or `desc`.
pub open spec fn favorites_plan_spec(
    entity_type: Seq<char>,
    limit: u32,
    sort: Seq<char>,
    order: Option<Seq<char>>,
) -> Result<(FavoritesSort, SortOrder, u32), Seq<char>> {
    let l = effective_limit(limit, 50);
    if entity_type != "album"@ {
        Err("only type=album is supported"@)
    } else if !(1 <= l <= 500) {
        Err("limit must be 1..="@ + dec_nat(500))
    } else {
        match favorites_sort_named(sort) {
            None => Err("sort must be title, artist, or in_library"@),
            Some(s) => match order {
                None => Ok((s, SortOrder::Asc, l)),
                Some(o) => match order_named(o) {
                    Some(ord) => Ok((s, ord, l)),
                    None => Err("order must be asc or desc"@),
                },
            },
        }
    }
}

pub fn plan_favorites_listing(q: &FavoritesQuery) -> (r: Result<FavoritesPlan, ApiError>)
    ensures
        match favorites_plan_spec(
            q.entity_type@,
            q.limit,
            q.sort@,
            match q.order {
                Some(o) => Some(o@),
                None => None,
            },
        ) {
            Ok((s, o, l)) => r matches Ok(p) && p.sort == s && p.order == o && p.limit == l,
            Err(m) => r matches Err(e) && is_message(e, m),
        },
{
    if !str_is(q.entity_type.as_str(), "album") {
        return Err(ApiError::bad_request("only type=album is supported"));
    }
    let limit = match parse_limit(q.limit, 50, 500) {
        Ok(l) => l,
        Err(e) => return Err(e),
    };
    let sort = match FavoritesSort::parse(q.sort.as_str()) {
        Ok(s) => s,
        Err(e) => return Err(e),
    };
    let order = match &q.order {
        None => SortOrder::Asc,
        Some(o) => match SortOrder::parse(o.as_str()) {
            Ok(ord) => ord,
            Err(e) => return Err(e),
        },
    };
    Ok(FavoritesPlan { sort, order, limit })
}

/// Adding or removing favorites needs at least one album id.
pub fn check_favorites_mutation(album_ids: &Vec<u64>) -> (r: Result<(), ApiError>)
    ensures
        album_ids.len() > 0 <==> r is Ok,
        album_ids.len() == 0 ==> (r matches Err(e) && is_message(e, "album_ids must not be empty"@)),
{
    if album_ids.len() == 0 {
        return Err(ApiError::bad_request("album_ids must not be empty"));
    }
    Ok(())
}

/// The library storage as the public server description shows it: an SMB
/// location loses its user name, workgroup and password flag.
pub fn public_server_storage_view(location: StorageLocationView) -> (r: StorageLocationView)
    ensures
        location is Local ==> r == location,
        location matches StorageLocationView::Smb { host, port, share, path, watch_status, .. }
            ==> r == (StorageLocationView::Smb {
            host,
            port,
            share,
            path,
            watch_status,
            username: None,
            workgroup: None,
            password_configured: false,
        }),
{
    match location {
        StorageLocationView::Smb { host, port, share, path, watch_status, .. } => {
            StorageLocationView::Smb {
                host,
                port,
                share,
                path,
                watch_status,
                username: None,
                workgroup: None,
                password_configured: false,
            }
        },
        other => other,
    }
}

} // verus!
