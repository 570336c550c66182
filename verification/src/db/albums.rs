//! Album rows and the album listing query.

use vstd::prelude::*;

use crate::api::keyset::{key_view, kind_of, KeyView, SortKeyKind, SortKeyValue, SortOrder};
use crate::codec::json_quote;
use crate::db::favorites::json_opt_text;
use crate::error::{is_message, ApiError};
use crate::text::{append_chars, chars_of, str_is, string_of, trim, trim_chars};

verus! {

#[derive(Debug, Clone)]
pub struct AlbumRow {
    pub id: i64,
    pub artist_id: Option<i64>,
    pub title: String,
    pub year: Option<i32>,
    pub qobuz_album_id: Option<i64>,
    pub path: Option<String>,
    pub cover_path: Option<String>,
}

pub struct AlbumUpsert<'a> {
    pub artist_id: Option<i64>,
    pub title: &'a str,
    pub year: Option<i32>,
    pub qobuz_album_id: Option<i64>,
    pub path: Option<&'a str>,
    pub cover_path: Option<&'a str>,
}

#[derive(Debug, Clone, Copy, PartialEq, Eq, Structural)]
pub enum AlbumsSort {
    Title,
    Artist,
    Year,
}

pub open spec fn albums_sort_text(s: AlbumsSort) -> Seq<char> {
    match s {
        AlbumsSort::Title => "title"@,
        AlbumsSort::Artist => "artist"@,
        AlbumsSort::Year => "year"@,
    }
}

pub open spec fn albums_sort_named(t: Seq<char>) -> Option<AlbumsSort> {
    if t == "title"@ {
        Some(AlbumsSort::Title)
    } else if t == "artist"@ {
        Some(AlbumsSort::Artist)
    } else if t == "year"@ {
        Some(AlbumsSort::Year)
    } else {
        None
    }
}

/// The SQL expression an album listing sorts by.
pub open spec fn albums_sort_sql(s: AlbumsSort) -> Seq<char> {
    match s {
        AlbumsSort::Title => "a.title COLLATE NOCASE"@,
        AlbumsSort::Artist => "COALESCE(ar.name, '') COLLATE NOCASE"@,
        AlbumsSort::Year => "COALESCE(a.year, -1)"@,
    }
}

pub open spec fn albums_key_kind(s: AlbumsSort) -> SortKeyKind {
    match s {
        AlbumsSort::Year => SortKeyKind::Int,
        _ => SortKeyKind::Text,
    }
}

/// `ORDER BY` of an album listing: the sort expression in the requested
/// direction, then ascending id.
pub open spec fn albums_order_sql(s: AlbumsSort, o: SortOrder) -> Seq<char> {
    let dir = match o {
        SortOrder::Asc => "ASC"@,
        SortOrder::Desc => "DESC"@,
    };
    albums_sort_sql(s) + " "@ + dir + ", a.id ASC"@
}

/// An album row of a listing.
#[derive(Debug, Clone)]
pub struct AlbumListRow {
    pub id: i64,
    pub title: String,
    pub artist_name: String,
    pub year: Option<i32>,
    pub path: Option<String>,
    pub cover_path: Option<String>,
    pub track_count: i64,
}

/// A listed album's value in the primary sort column; a missing year sorts
/// as `-1`.
pub open spec fn album_primary(s: AlbumsSort, row: AlbumListRow) -> KeyView {
    match s {
        AlbumsSort::Title => KeyView::Text(row.title@),
        AlbumsSort::Artist => KeyView::Text(row.artist_name@),
        AlbumsSort::Year => KeyView::Int(
            match row.year {
                Some(y) => y as i64,
                None => -1i64,
            },
        ),
    }
}

impl AlbumsSort {
    pub fn parse(s: &str) -> (r: Result<AlbumsSort, ApiError>)
        ensures
            albums_sort_named(s@) matches Some(v) ==> r == Ok::<AlbumsSort, ApiError>(v),
            albums_sort_named(s@) is None ==> (r matches Err(e) && is_message(
                e,
                "sort must be title, artist, or year"@,
            )),
    {
        if str_is(s, "title") {
            Ok(AlbumsSort::Title)
        } else if str_is(s, "artist") {
            Ok(AlbumsSort::Artist)
        } else if str_is(s, "year") {
            Ok(AlbumsSort::Year)
        } else {
            Err(ApiError::bad_request("sort must be title, artist, or year"))
        }
    }

    pub fn as_str(self) -> (r: &'static str)
        ensures
            r@ == albums_sort_text(self),
    {
        match self {
            AlbumsSort::Title => "title",
            AlbumsSort::Artist => "artist",
            AlbumsSort::Year => "year",
        }
    }

    pub fn sort_sql(self) -> (r: &'static str)
        ensures
            r@ == albums_sort_sql(self),
    {
        match self {
            AlbumsSort::Title => "a.title COLLATE NOCASE",
            AlbumsSort::Artist => "COALESCE(ar.name, '') COLLATE NOCASE",
            AlbumsSort::Year => "COALESCE(a.year, -1)",
        }
    }

    pub fn key_kind(self) -> (r: SortKeyKind)
        ensures
            r == albums_key_kind(self),
    {
        match self {
            AlbumsSort::Year => SortKeyKind::Int,
            _ => SortKeyKind::Text,
        }
    }

    pub fn order_sql(self, order: SortOrder) -> (r: String)
        ensures
            r@ == albums_order_sql(self, order),
    {
        let dir = match order {
            SortOrder::Asc => "ASC",
            SortOrder::Desc => "DESC",
        };
        let mut v = chars_of(self.sort_sql());
        let sp = chars_of(" ");
        append_chars(&mut v, sp.as_slice());
        let d = chars_of(dir);
        append_chars(&mut v, d.as_slice());
        let tail = chars_of(", a.id ASC");
        append_chars(&mut v, tail.as_slice());
        string_of(v.as_slice())
    }

    pub fn primary_key(self, row: &AlbumListRow) -> (r: SortKeyValue)
        ensures
            key_view(r) == album_primary(self, *row),
            kind_of(r) == albums_key_kind(self),
    {
        match self {
            AlbumsSort::Title => SortKeyValue::Text(row.title.clone()),
            AlbumsSort::Artist => SortKeyValue::Text(row.artist_name.clone()),
            AlbumsSort::Year => SortKeyValue::Int(
                match row.year {
                    Some(y) => y as i64,
                    None => -1,
                },
            ),
        }
    }
}

#[derive(Debug, Clone)]
pub struct AlbumsListParams {
    pub sort: AlbumsSort,
    pub order: SortOrder,
    pub limit: u32,
    pub q: Option<String>,
    pub cursor: Option<String>,
}

/// The search filter of an album listing: for a query that is not blank,
/// the clause matching title or artist name and the `%query%` pattern bound
/// to both placeholders.
pub open spec fn album_search_spec(q: Option<Seq<char>>) -> Option<(Seq<char>, Seq<char>)> {
    match q {
        Some(q) => if trim(q).len() > 0 {
            Some(
                (
                    " AND (a.title LIKE ? OR COALESCE(ar.name, '') LIKE ?)"@,
                    "%"@ + trim(q) + "%"@,
                ),
            )
        } else {
            None
        },
        None => None,
    }
}

pub fn album_search_clause(q: Option<&str>) -> (r: Option<(String, String)>)
    ensures
        r matches Some((c, p)) ==> album_search_spec(match q {
            Some(s) => Some(s@),
            None => None,
        }) == Some((c@, p@)),
        r is None ==> album_search_spec(match q {
            Some(s) => Some(s@),
            None => None,
        }) is None,
{
    match q {
        Some(q) => {
            let v = chars_of(q);
            let t = trim_chars(v.as_slice());
            if t.len() == 0 {
                return None;
            }
            let mut pat = chars_of("%");
            append_chars(&mut pat, t.as_slice());
            let pct = chars_of("%");
            append_chars(&mut pat, pct.as_slice());
            Some(
                (
                    string_of(chars_of(" AND (a.title LIKE ? OR COALESCE(ar.name, '') LIKE ?)").as_slice()),
                    string_of(pat.as_slice()),
                ),
            )
        },
        None => None,
    }
}

/// The fingerprint of an album listing's filter: the JSON object
/// `{"q":…}`, `null` when no search is given.
pub open spec fn albums_fingerprint_spec(q: Option<Seq<char>>) -> Seq<char> {
    "{\"q\":"@ + json_opt_text(q) + "}"@
}

pub fn albums_fingerprint(q: Option<&str>) -> (r: String)
    ensures
        r@ == albums_fingerprint_spec(match q {
            Some(s) => Some(s@),
            None => None,
        }),
{
    let mut v = chars_of("{\"q\":");
    let text = match q {
        Some(s) => {
            let quoted = json_quote(s);
            chars_of(quoted.as_str())
        },
        None => chars_of("null"),
    };
    append_chars(&mut v, text.as_slice());
    let end = chars_of("}");
    append_chars(&mut v, end.as_slice());
    string_of(v.as_slice())
}

} // verus!
