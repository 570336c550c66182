//! Keyset (seek) pagination shared by the list endpoints: sort orders, the
//! opaque cursor that carries the last row's sort key, and the SQL fragment
//! that continues a listing after it.

use vstd::prelude::*;

use crate::codec::{
    base64_url_bytes, base64_url_decode, base64_url_encode, base64_url_text, json_quote,
    json_string_literal,
};
use crate::error::{is_message, ApiError};
use crate::text::{append_chars, chars_of, dec_int, dec_nat, fmt_i64, fmt_u64, str_is, string_of};

verus! {

/// The cursor format version this server writes and accepts.
pub const CURSOR_VERSION: u32 = 1;

#[derive(Debug, Clone, Copy, PartialEq, Eq, Structural)]
pub enum SortOrder {
    Asc,
    Desc,
}

impl Default for SortOrder {
    fn default() -> (r: SortOrder)
        ensures
            r == SortOrder::Asc,
    {
        SortOrder::Asc
    }
}

/// The query-string spelling of an order.
pub open spec fn order_text(o: SortOrder) -> Seq<char> {
    match o {
        SortOrder::Asc => "asc"@,
        SortOrder::Desc => "desc"@,
    }
}

/// The order a query string names, if any.
pub open spec fn order_named(s: Seq<char>) -> Option<SortOrder> {
    if s == "asc"@ {
        Some(SortOrder::Asc)
    } else if s == "desc"@ {
        Some(SortOrder::Desc)
    } else {
        None
    }
}

impl SortOrder {
    pub fn parse(s: &str) -> (r: Result<SortOrder, ApiError>)
        ensures
            order_named(s@) matches Some(o) ==> r == Ok::<SortOrder, ApiError>(o),
            order_named(s@) is None ==> (r matches Err(e) && is_message(
                e,
                "order must be asc or desc"@,
            )),
    {
        if str_is(s, "asc") {
            Ok(SortOrder::Asc)
        } else if str_is(s, "desc") {
            Ok(SortOrder::Desc)
        } else {
            Err(ApiError::bad_request("order must be asc or desc"))
        }
    }

    pub fn as_str(self) -> (r: &'static str)
        ensures
            r@ == order_text(self),
    {
        match self {
            SortOrder::Asc => "asc",
            SortOrder::Desc => "desc",
        }
    }
}

/// Spelling an order and reading it back gives the same order.
pub proof fn lemma_order_round_trip(o: SortOrder)
    ensures
        order_named(order_text(o)) == Some(o),
{
    reveal_strlit("asc");
    reveal_strlit("desc");
    assert("asc"@.len() != "desc"@.len());
}

/// One page of a keyset listing.
#[derive(Debug, Clone)]
pub struct KeysetPage<T> {
    pub items: Vec<T>,
    pub next_cursor: Option<String>,
    pub has_more: bool,
}

/// The value of a row's primary sort column.
#[derive(Debug, Clone, PartialEq, Eq)]
pub enum SortKeyValue {
    Text(String),
    Int(i64),
    Bool(i32),
}

#[derive(Debug, Clone, Copy, PartialEq, Eq, Structural)]
pub enum SortKeyKind {
    Text,
    Int,
    Bool,
}

/// A JSON value stored under a cursor's `keys` object, as far as the
/// pagination code reads it: a string, a number that fits `i64`, or
/// anything else.
#[derive(Debug, Clone)]
pub enum CursorJson {
    Str(String),
    Int(i64),
    Other,
}

/// A decoded pagination cursor. `primary` and `tie` are the entries of its
/// `keys` object, absent where the object lacks them.
#[derive(Debug, Clone)]
pub struct CursorPayload {
    pub v: u32,
    pub sort: String,
    pub order: SortOrder,
    pub fingerprint: String,
    pub primary: Option<CursorJson>,
    pub tie: Option<CursorJson>,
}

/// A sort key with its text taken as characters.
pub enum KeyView {
    Text(Seq<char>),
    Int(i64),
    Bool(i32),
}

pub open spec fn key_view(k: SortKeyValue) -> KeyView {
    match k {
        SortKeyValue::Text(s) => KeyView::Text(s@),
        SortKeyValue::Int(n) => KeyView::Int(n),
        SortKeyValue::Bool(b) => KeyView::Bool(b),
    }
}

pub open spec fn kind_of(k: SortKeyValue) -> SortKeyKind {
    match k {
        SortKeyValue::Text(_) => SortKeyKind::Text,
        SortKeyValue::Int(_) => SortKeyKind::Int,
        SortKeyValue::Bool(_) => SortKeyKind::Bool,
    }
}

/// A cursor JSON value with its text taken as characters.
pub enum JsonView {
    Str(Seq<char>),
    Int(i64),
    Other,
}

pub open spec fn json_view(j: CursorJson) -> JsonView {
    match j {
        CursorJson::Str(s) => JsonView::Str(s@),
        CursorJson::Int(n) => JsonView::Int(n),
        CursorJson::Other => JsonView::Other,
    }
}

/// What `SortKeyValue::from_json` reads from `value` for `kind`; `None` where
/// the value does not fit the kind.
pub open spec fn key_from_json(value: JsonView, kind: SortKeyKind) -> Option<KeyView> {
    match kind {
        SortKeyKind::Text => match value {
            JsonView::Str(s) => Some(KeyView::Text(s)),
            _ => None,
        },
        SortKeyKind::Int => match value {
            JsonView::Int(n) => Some(KeyView::Int(n)),
            _ => None,
        },
        SortKeyKind::Bool => match value {
            JsonView::Int(b) => if b == 0 || b == 1 {
                Some(KeyView::Bool(b as i32))
            } else {
                None
            },
            _ => None,
        },
    }
}

/// The message of the error `from_json` reports for `kind`.
pub open spec fn key_error_text(kind: SortKeyKind) -> Seq<char> {
    match kind {
        SortKeyKind::Text => "INVALID_CURSOR: "@ + "invalid text key in cursor"@,
        SortKeyKind::Int => "INVALID_CURSOR: "@ + "invalid int key in cursor"@,
        SortKeyKind::Bool => "INVALID_CURSOR: "@ + "invalid bool key in cursor"@,
    }
}

/// The JSON value a key is stored as in a cursor.
pub open spec fn key_json(k: KeyView) -> JsonView {
    match k {
        KeyView::Text(s) => JsonView::Str(s),
        KeyView::Int(n) => JsonView::Int(n),
        KeyView::Bool(b) => JsonView::Int(b as i64),
    }
}

pub fn copy_string(s: &String) -> (r: String)
    ensures
        r@ == s@,
{
    s.clone()
}

impl SortKeyValue {
    /// A copy of the key.
    pub fn duplicate(&self) -> (r: SortKeyValue)
        ensures
            key_view(r) == key_view(*self),
            kind_of(r) == kind_of(*self),
    {
        match self {
            SortKeyValue::Text(s) => SortKeyValue::Text(copy_string(s)),
            SortKeyValue::Int(n) => SortKeyValue::Int(*n),
            SortKeyValue::Bool(b) => SortKeyValue::Bool(*b),
        }
    }

    pub fn from_json(value: &CursorJson, kind: SortKeyKind) -> (r: Result<SortKeyValue, ApiError>)
        ensures
            key_from_json(json_view(*value), kind) matches Some(k) ==> (r matches Ok(v)
                && key_view(v) == k && kind_of(v) == kind),
            key_from_json(json_view(*value), kind) is None ==> (r matches Err(e) && is_message(
                e,
                key_error_text(kind),
            )),
    {
        match kind {
            SortKeyKind::Text => match value {
                CursorJson::Str(s) => Ok(SortKeyValue::Text(copy_string(s))),
                _ => Err(ApiError::invalid_cursor("invalid text key in cursor")),
            },
            SortKeyKind::Int => match value {
                CursorJson::Int(n) => Ok(SortKeyValue::Int(*n)),
                _ => Err(ApiError::invalid_cursor("invalid int key in cursor")),
            },
            SortKeyKind::Bool => match value {
                CursorJson::Int(b) => {
                    if *b != 0 && *b != 1 {
                        Err(ApiError::invalid_cursor("invalid bool key in cursor"))
                    } else {
                        Ok(SortKeyValue::Bool(*b as i32))
                    }
                },
                _ => Err(ApiError::invalid_cursor("invalid bool key in cursor")),
            },
        }
    }

    pub fn primary_json(&self) -> (r: CursorJson)
        ensures
            json_view(r) == key_json(key_view(*self)),
    {
        match self {
            SortKeyValue::Text(s) => CursorJson::Str(copy_string(s)),
            SortKeyValue::Int(n) => CursorJson::Int(*n),
            SortKeyValue::Bool(b) => CursorJson::Int(*b as i64),
        }
    }
}

/// A key a row can have: a boolean column holds `0` or `1`.
pub open spec fn key_valid(k: SortKeyValue) -> bool {
    k matches SortKeyValue::Bool(b) ==> (b == 0 || b == 1)
}

/// A key stored in a cursor and read back with its own kind is the same key.
pub proof fn lemma_key_json_round_trip(k: SortKeyValue)
    requires
        key_valid(k),
    ensures
        key_from_json(key_json(key_view(k)), kind_of(k)) == Some(key_view(k)),
{
}

/// The limit a list request ends up with: the default for `0`, then checked
/// against `1..=max`.
pub open spec fn effective_limit(limit: u32, default: u32) -> u32 {
    if limit == 0 {
        default
    } else {
        limit
    }
}

pub fn parse_limit(limit: u32, default: u32, max: u32) -> (r: Result<u32, ApiError>)
    ensures
        ({
            let l = effective_limit(limit, default);
            &&& (1 <= l <= max) ==> r == Ok::<u32, ApiError>(l)
            &&& !(1 <= l <= max) ==> (r matches Err(e) && is_message(
                e,
                "limit must be 1..="@ + dec_nat(max as nat),
            ))
        }),
{
    let limit = if limit == 0 {
        default
    } else {
        limit
    };
    if limit == 0 || limit > max {
        let mut msg = chars_of("limit must be 1..=");
        let digits = fmt_u64(max as u64);
        append_chars(&mut msg, digits.as_slice());
        return Err(ApiError::Message(string_of(msg.as_slice())));
    }
    Ok(limit)
}

/// `INVALID_CURSOR: ` followed by `m`, the message of a rejected cursor.
pub open spec fn cursor_error(m: Seq<char>) -> Seq<char> {
    "INVALID_CURSOR: "@ + m
}

/// What `ensure_cursor_matches` makes of a cursor for a query with the given
/// sort, order, filter fingerprint and key kind: the key and tie-breaker to
/// continue after, or the message of the error.
pub open spec fn cursor_match(
    c: CursorPayload,
    sort: Seq<char>,
    order: SortOrder,
    fingerprint: Seq<char>,
    kind: SortKeyKind,
) -> Result<(KeyView, i64), Seq<char>> {
    if c.sort@ != sort {
        Err(cursor_error("cursor sort does not match query"@))
    } else if c.order != order {
        Err(cursor_error("cursor order does not match query"@))
    } else if c.fingerprint@ != fingerprint {
        Err(cursor_error("cursor does not match current filters; reset pagination"@))
    } else {
        match c.primary {
            None => Err(cursor_error("cursor missing primary key"@)),
            Some(p) => match c.tie {
                Some(CursorJson::Int(t)) => match key_from_json(json_view(p), kind) {
                    Some(k) => Ok((k, t)),
                    None => Err(key_error_text(kind)),
                },
                _ => Err(cursor_error("cursor missing tie key"@)),
            },
        }
    }
}

pub fn ensure_cursor_matches(
    cursor: &CursorPayload,
    sort: &str,
    order: SortOrder,
    fingerprint: &str,
    primary_kind: SortKeyKind,
) -> (r: Result<(SortKeyValue, i64), ApiError>)
    ensures
        match cursor_match(*cursor, sort@, order, fingerprint@, primary_kind) {
            Ok((k, t)) => r matches Ok((v, tie)) && key_view(v) == k && tie == t && kind_of(v)
                == primary_kind,
            Err(m) => r matches Err(e) && is_message(e, m),
        },
{
    if !str_is(cursor.sort.as_str(), sort) {
        return Err(ApiError::invalid_cursor("cursor sort does not match query"));
    }
    if cursor.order != order {
        return Err(ApiError::invalid_cursor("cursor order does not match query"));
    }
    if !str_is(cursor.fingerprint.as_str(), fingerprint) {
        return Err(
            ApiError::invalid_cursor("cursor does not match current filters; reset pagination"),
        );
    }
    let primary = match &cursor.primary {
        Some(p) => p,
        None => {
            return Err(ApiError::invalid_cursor("cursor missing primary key"));
        },
    };
    let tie = match &cursor.tie {
        Some(CursorJson::Int(t)) => *t,
        _ => {
            return Err(ApiError::invalid_cursor("cursor missing tie key"));
        },
    };
    let primary = SortKeyValue::from_json(primary, primary_kind)?;
    Ok((primary, tie))
}

/// The comparison operators of a continuation clause: the primary column's
/// and the tie-breaker's.
pub open spec fn clause_ops(order: SortOrder) -> (Seq<char>, Seq<char>) {
    match order {
        SortOrder::Asc => (">"@, ">"@),
        SortOrder::Desc => ("<"@, ">"@),
    }
}

/// `AND ({sort} {op} ? OR ({sort} = ? AND {tie} {tie_op} ?))`.
pub open spec fn clause_text(order: SortOrder, sort_sql: Seq<char>, tie_sql: Seq<char>) -> Seq<
    char,
> {
    let (op, tie_op) = clause_ops(order);
    "AND ("@ + sort_sql + " "@ + op + " ? OR ("@ + sort_sql + " = ? AND "@ + tie_sql + " "@
        + tie_op + " ?))"@
}

fn push_str(v: &mut Vec<char>, s: &str)
    ensures
        final(v)@ == old(v)@ + s@,
{
    let w = chars_of(s);
    append_chars(v, w.as_slice());
}

/// The SQL fragment that continues a listing after the row with sort key
/// `primary` and id `tie_id`, with the values to bind to its placeholders.
pub fn keyset_and_clause(
    order: SortOrder,
    sort_sql: &str,
    tie_sql: &str,
    primary: &SortKeyValue,
    tie_id: i64,
) -> (r: (String, Vec<SortKeyValue>))
    ensures
        r.0@ == clause_text(order, sort_sql@, tie_sql@),
        r.1@.len() == 3,
        key_view(r.1@[0]) == key_view(*primary),
        key_view(r.1@[1]) == key_view(*primary),
        r.1@[2] == SortKeyValue::Int(tie_id),
{
    let (op, tie_op) = match order {
        SortOrder::Asc => (">", ">"),
        SortOrder::Desc => ("<", ">"),
    };
    let mut v: Vec<char> = Vec::new();
    push_str(&mut v, "AND (");
    push_str(&mut v, sort_sql);
    push_str(&mut v, " ");
    push_str(&mut v, op);
    push_str(&mut v, " ? OR (");
    push_str(&mut v, sort_sql);
    push_str(&mut v, " = ? AND ");
    push_str(&mut v, tie_sql);
    push_str(&mut v, " ");
    push_str(&mut v, tie_op);
    push_str(&mut v, " ?))");
    let mut binds: Vec<SortKeyValue> = Vec::new();
    binds.push(primary.duplicate());
    binds.push(primary.duplicate());
    binds.push(SortKeyValue::Int(tie_id));
    (string_of(v.as_slice()), binds)
}

/// How a key is written in a cursor's JSON.
pub open spec fn key_json_text(k: KeyView) -> Seq<char> {
    match k {
        KeyView::Text(s) => json_string_literal(s),
        KeyView::Int(n) => dec_int(n as int),
        KeyView::Bool(b) => dec_int(b as int),
    }
}

/// The JSON text of a cursor:
/// `{"v":1,"sort":…,"order":…,"fingerprint":…,"keys":{"primary":…,"tie":…}}`.
pub open spec fn cursor_json(
    sort: Seq<char>,
    order: SortOrder,
    fingerprint: Seq<char>,
    primary: KeyView,
    tie: i64,
) -> Seq<char> {
    "{\"v\":1,\"sort\":"@ + json_string_literal(sort) + ",\"order\":\""@ + order_text(order)
        + "\",\"fingerprint\":"@ + json_string_literal(fingerprint) + ",\"keys\":{\"primary\":"@
        + key_json_text(primary) + ",\"tie\":"@ + dec_int(tie as int) + "}}"@
}

/// The opaque cursor handed to clients: the cursor JSON in URL-safe base64.
pub open spec fn cursor_text(
    sort: Seq<char>,
    order: SortOrder,
    fingerprint: Seq<char>,
    primary: KeyView,
    tie: i64,
) -> Seq<char> {
    base64_url_text(cursor_json(sort, order, fingerprint, primary, tie))
}

pub fn encode_cursor(
    sort: &str,
    order: SortOrder,
    fingerprint: &str,
    primary: &SortKeyValue,
    tie_breaker: i64,
) -> (r: String)
    ensures
        r@ == cursor_text(sort@, order, fingerprint@, key_view(*primary), tie_breaker),
{
    let mut v: Vec<char> = Vec::new();
    push_str(&mut v, "{\"v\":1,\"sort\":");
    let q = json_quote(sort);
    push_str(&mut v, q.as_str());
    push_str(&mut v, ",\"order\":\"");
    push_str(&mut v, order.as_str());
    push_str(&mut v, "\",\"fingerprint\":");
    let q = json_quote(fingerprint);
    push_str(&mut v, q.as_str());
    push_str(&mut v, ",\"keys\":{\"primary\":");
    match primary {
        SortKeyValue::Text(s) => {
            let q = json_quote(s.as_str());
            push_str(&mut v, q.as_str());
        },
        SortKeyValue::Int(n) => {
            let d = fmt_i64(*n);
            append_chars(&mut v, d.as_slice());
        },
        SortKeyValue::Bool(b) => {
            let d = fmt_i64(*b as i64);
            append_chars(&mut v, d.as_slice());
        },
    }
    push_str(&mut v, ",\"tie\":");
    let d = fmt_i64(tie_breaker);
    append_chars(&mut v, d.as_slice());
    push_str(&mut v, "}}");
    let json = string_of(v.as_slice());
    base64_url_encode(json.as_str())
}

/// The bytes of a client's cursor, or the error for text that is not
/// URL-safe base64.
pub fn cursor_bytes(cursor: &str) -> (r: Result<Vec<u8>, ApiError>)
    ensures
        base64_url_bytes(cursor@) matches Some(b) ==> (r matches Ok(v) && v@ == b),
        base64_url_bytes(cursor@) is None ==> (r matches Err(e) && is_message(
            e,
            cursor_error("invalid cursor encoding"@),
        )),
{
    match base64_url_decode(cursor) {
        Some(b) => Ok(b),
        None => Err(ApiError::invalid_cursor("invalid cursor encoding")),
    }
}

/// A parsed cursor, accepted only in the version this server writes.
pub fn check_cursor_version(payload: CursorPayload) -> (r: Result<CursorPayload, ApiError>)
    ensures
        payload.v == CURSOR_VERSION ==> r == Ok::<CursorPayload, ApiError>(payload),
        payload.v != CURSOR_VERSION ==> (r matches Err(e) && is_message(
            e,
            cursor_error("unsupported cursor version"@),
        )),
{
    if payload.v != CURSOR_VERSION {
        return Err(ApiError::invalid_cursor("unsupported cursor version"));
    }
    Ok(payload)
}

/// Cuts a listing fetched with one row past `limit` down to a page; when
/// there are more rows, the cursor carries the sort key of the page's last
/// row as `extract` reads it.
pub fn finish_keyset_page<T, F: Fn(&T) -> (SortKeyValue, i64)>(
    rows: Vec<T>,
    limit: usize,
    sort: &str,
    order: SortOrder,
    fingerprint: &str,
    extract: F,
) -> (page: KeysetPage<T>)
    requires
        forall|t: &T| extract.requires((t,)),
    ensures
        page.has_more == (rows@.len() > limit),
        page.items@ == (if rows@.len() > limit {
            rows@.take(limit as int)
        } else {
            rows@
        }),
        (rows@.len() > limit && limit > 0) ==> (page.next_cursor matches Some(c) && exists|
            k: (SortKeyValue, i64),
        |
            extract.ensures((&rows@[limit - 1],), k) && c@ == cursor_text(
                sort@,
                order,
                fingerprint@,
                key_view(k.0),
                k.1,
            )),
        !(rows@.len() > limit && limit > 0) ==> page.next_cursor is None,
{
    let has_more = rows.len() > limit;
    let mut rows = rows;
    if has_more {
        rows.truncate(limit);
    }
    let next_cursor = if has_more && limit > 0 {
        let last = &rows[limit - 1];
        let k = extract(last);
        Some(encode_cursor(sort, order, fingerprint, &k.0, k.1))
    } else {
        None
    };
    KeysetPage { items: rows, next_cursor, has_more }
}

} // verus!
