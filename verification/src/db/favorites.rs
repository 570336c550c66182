//! Qobuz favorite albums: how a favorites listing is sorted, filtered and
//! continued from a cursor.

use vstd::prelude::*;

use crate::api::keyset::{
    cursor_match, cursor_text, encode_cursor, ensure_cursor_matches, key_view, kind_of,
    CursorPayload, KeyView, SortKeyKind, SortKeyValue, SortOrder,
};
use crate::codec::{json_quote, json_string_literal};
use crate::error::{is_message, ApiError};
use crate::text::{append_chars, chars_of, dec_int, fmt_i64, str_is, string_of};

verus! {

#[derive(Debug, Clone, Copy, PartialEq, Eq, Structural)]
pub enum FavoritesSort {
    Title,
    Artist,
    InLibrary,
}

pub open spec fn favorites_sort_text(s: FavoritesSort) -> Seq<char> {
    match s {
        FavoritesSort::Title => "title"@,
        FavoritesSort::Artist => "artist"@,
        FavoritesSort::InLibrary => "in_library"@,
    }
}

pub open spec fn favorites_sort_named(t: Seq<char>) -> Option<FavoritesSort> {
    if t == "title"@ {
        Some(FavoritesSort::Title)
    } else if t == "artist"@ {
        Some(FavoritesSort::Artist)
    } else if t == "in_library"@ {
        Some(FavoritesSort::InLibrary)
    } else {
        None
    }
}

/// The kind of a favorites listing's primary key: a flag for `in_library`,
/// text otherwise.
pub open spec fn favorites_key_kind(s: FavoritesSort) -> SortKeyKind {
    match s {
        FavoritesSort::InLibrary => SortKeyKind::Bool,
        _ => SortKeyKind::Text,
    }
}

impl FavoritesSort {
    pub fn parse(s: &str) -> (r: Result<FavoritesSort, ApiError>)
        ensures
            favorites_sort_named(s@) matches Some(v) ==> r == Ok::<FavoritesSort, ApiError>(v),
            favorites_sort_named(s@) is None ==> (r matches Err(e) && is_message(
                e,
                "sort must be title, artist, or in_library"@,
            )),
    {
        if str_is(s, "title") {
            Ok(FavoritesSort::Title)
        } else if str_is(s, "artist") {
            Ok(FavoritesSort::Artist)
        } else if str_is(s, "in_library") {
            Ok(FavoritesSort::InLibrary)
        } else {
            Err(ApiError::bad_request("sort must be title, artist, or in_library"))
        }
    }

    pub fn as_str(self) -> (r: &'static str)
        ensures
            r@ == favorites_sort_text(self),
    {
        match self {
            FavoritesSort::Title => "title",
            FavoritesSort::Artist => "artist",
            FavoritesSort::InLibrary => "in_library",
        }
    }

    pub fn key_kind(self) -> (r: SortKeyKind)
        ensures
            r == favorites_key_kind(self),
    {
        match self {
            FavoritesSort::InLibrary => SortKeyKind::Bool,
            _ => SortKeyKind::Text,
        }
    }
}

/// Spelling a sort and reading it back gives the same sort.
pub proof fn lemma_favorites_sort_round_trip(s: FavoritesSort)
    ensures
        favorites_sort_named(favorites_sort_text(s)) == Some(s),
{
    reveal_strlit("title");
    reveal_strlit("artist");
    reveal_strlit("in_library");
    assert("title"@ != "artist"@ && "title"@ != "in_library"@ && "artist"@ != "in_library"@) by {
        assert("title"@[0] != "artist"@[0]);
        assert("title"@.len() != "in_library"@.len());
        assert("artist"@.len() != "in_library"@.len());
    }
}

#[derive(Debug, Clone)]
pub struct FavoritesListParams {
    pub sort: FavoritesSort,
    pub order: SortOrder,
    pub limit: u32,
    pub q: Option<String>,
    pub in_library: Option<bool>,
    pub cursor: Option<String>,
}

/// What the store keeps of a favorite album besides its id.
#[derive(Debug, Clone)]
pub struct FavoriteAlbumMeta {
    pub slug: Option<String>,
    pub title: String,
    pub artist_name: String,
}

/// A favorite's value in the primary sort column, as the store compares it.
#[derive(Debug, Clone)]
pub enum FavoriteSortValue {
    Text(String),
    Bool(i32),
}

/// Where a favorites listing continues: after the row with this primary
/// value and Qobuz id.
#[derive(Debug, Clone)]
pub struct FavoriteListCursor {
    pub primary: FavoriteSortValue,
    pub tie_qobuz_id: i64,
}

pub enum FavoriteValueView {
    Text(Seq<char>),
    Bool(i32),
}

pub open spec fn favorite_value_view(v: FavoriteSortValue) -> FavoriteValueView {
    match v {
        FavoriteSortValue::Text(s) => FavoriteValueView::Text(s@),
        FavoriteSortValue::Bool(b) => FavoriteValueView::Bool(b),
    }
}

/// The store value for a cursor key: text and flags as they are, a number
/// as its decimal text.
pub open spec fn store_value(k: KeyView) -> FavoriteValueView {
    match k {
        KeyView::Text(s) => FavoriteValueView::Text(s),
        KeyView::Bool(b) => FavoriteValueView::Bool(b),
        KeyView::Int(n) => FavoriteValueView::Text(dec_int(n as int)),
    }
}

/// The cursor key for a store value.
pub open spec fn cursor_key(v: FavoriteValueView) -> KeyView {
    match v {
        FavoriteValueView::Text(s) => KeyView::Text(s),
        FavoriteValueView::Bool(b) => KeyView::Bool(b),
    }
}

/// The store value for a cursor key (`data_sort_value`).
pub fn data_sort_value(value: SortKeyValue) -> (r: FavoriteSortValue)
    ensures
        favorite_value_view(r) == store_value(key_view(value)),
{
    match value {
        SortKeyValue::Text(text) => FavoriteSortValue::Text(text),
        SortKeyValue::Bool(b) => FavoriteSortValue::Bool(b),
        SortKeyValue::Int(n) => {
            let d = fmt_i64(n);
            FavoriteSortValue::Text(string_of(d.as_slice()))
        },
    }
}

/// The cursor key for a store value (`api_sort_value`).
pub fn api_sort_value(value: &FavoriteSortValue) -> (r: SortKeyValue)
    ensures
        key_view(r) == cursor_key(favorite_value_view(*value)),
{
    match value {
        FavoriteSortValue::Text(text) => SortKeyValue::Text(text.clone()),
        FavoriteSortValue::Bool(b) => SortKeyValue::Bool(*b),
    }
}

/// A key taken to the store and back is unchanged, for the keys a
/// favorites listing has (text and flags).
pub proof fn lemma_store_value_round_trip(k: KeyView)
    requires
        !(k is Int),
    ensures
        cursor_key(store_value(k)) == k,
{
}

pub open spec fn json_opt_text(q: Option<Seq<char>>) -> Seq<char> {
    match q {
        Some(s) => json_string_literal(s),
        None => "null"@,
    }
}

pub open spec fn json_opt_flag(b: Option<bool>) -> Seq<char> {
    match b {
        Some(true) => "true"@,
        Some(false) => "false"@,
        None => "null"@,
    }
}

/// The fingerprint of a favorites listing's filters: the JSON object
/// `{"in_library":…,"q":…}` (keys in sorted order, `null` where unset).
pub open spec fn favorites_fingerprint_spec(q: Option<Seq<char>>, in_library: Option<bool>) -> Seq<
    char,
> {
    "{\"in_library\":"@ + json_opt_flag(in_library) + ",\"q\":"@ + json_opt_text(q) + "}"@
}

pub fn favorites_fingerprint(q: Option<&str>, in_library: Option<bool>) -> (r: String)
    ensures
        r@ == favorites_fingerprint_spec(
            match q {
                Some(s) => Some(s@),
                None => None,
            },
            in_library,
        ),
{
    let mut v = chars_of("{\"in_library\":");
    let flag = match in_library {
        Some(true) => chars_of("true"),
        Some(false) => chars_of("false"),
        None => chars_of("null"),
    };
    append_chars(&mut v, flag.as_slice());
    let mid = chars_of(",\"q\":");
    append_chars(&mut v, mid.as_slice());
    let text = match q {
        Some(s) => {
            let quoted = json_quote(s);
            chars_of(quoted.as_str())
        },
        None => chars_of("null"),
    };
    append_chars(&mut v, text.as_slice());
    let end = chars_of("}");
    append_chars(&mut v, end.as_slice());
    string_of(v.as_slice())
}

/// What a decoded cursor gives a favorites listing: where to continue, or
/// the error message (see `cursor_match`).
pub open spec fn favorites_after_spec(
    c: CursorPayload,
    sort: FavoritesSort,
    order: SortOrder,
    fingerprint: Seq<char>,
) -> Result<(FavoriteValueView, i64), Seq<char>> {
    match cursor_match(c, favorites_sort_text(sort), order, fingerprint, favorites_key_kind(sort)) {
        Ok((k, t)) => Ok((store_value(k), t)),
        Err(m) => Err(m),
    }
}

/// Where a favorites listing continues after a decoded cursor
/// (`decode_favorites_cursor` once the cursor text is decoded).
pub fn favorites_cursor_after(
    payload: &CursorPayload,
    sort: FavoritesSort,
    order: SortOrder,
    fingerprint: &str,
) -> (r: Result<FavoriteListCursor, ApiError>)
    ensures
        match favorites_after_spec(*payload, sort, order, fingerprint@) {
            Ok((v, t)) => r matches Ok(c) && favorite_value_view(c.primary) == v
                && c.tie_qobuz_id == t,
            Err(m) => r matches Err(e) && is_message(e, m),
        },
{
    let (primary, tie_qobuz_id) = ensure_cursor_matches(
        payload,
        sort.as_str(),
        order,
        fingerprint,
        sort.key_kind(),
    )?;
    Ok(FavoriteListCursor { primary: data_sort_value(primary), tie_qobuz_id })
}

/// The cursor handed out for the next page of a favorites listing.
pub fn encode_favorites_cursor(
    sort: FavoritesSort,
    order: SortOrder,
    fingerprint: &str,
    cursor: &FavoriteListCursor,
) -> (r: String)
    ensures
        r@ == cursor_text(
            favorites_sort_text(sort),
            order,
            fingerprint@,
            cursor_key(favorite_value_view(cursor.primary)),
            cursor.tie_qobuz_id,
        ),
{
    let key = api_sort_value(&cursor.primary);
    encode_cursor(sort.as_str(), order, fingerprint, &key, cursor.tie_qobuz_id)
}

} // verus!
