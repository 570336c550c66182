use base64::Engine;
use euterpe_server::api::keyset::{
    check_cursor_version, cursor_bytes, encode_cursor, ensure_cursor_matches, finish_keyset_page,
    keyset_and_clause, parse_limit, CursorJson, CursorPayload, SortKeyKind, SortKeyValue,
    SortOrder,
};

fn json_key(v: Option<&serde_json::Value>) -> Option<CursorJson> {
    v.map(|v| {
        if let Some(s) = v.as_str() {
            CursorJson::Str(s.to_string())
        } else if let Some(n) = v.as_i64() {
            CursorJson::Int(n)
        } else {
            CursorJson::Other
        }
    })
}

fn decode(cursor: &str) -> CursorPayload {
    let bytes = cursor_bytes(cursor).unwrap();
    let v: serde_json::Value = serde_json::from_slice(&bytes).unwrap();
    let order = match v["order"].as_str().unwrap() {
        "asc" => SortOrder::Asc,
        _ => SortOrder::Desc,
    };
    let payload = CursorPayload {
        v: v["v"].as_u64().unwrap() as u32,
        sort: v["sort"].as_str().unwrap().to_string(),
        order,
        fingerprint: v["fingerprint"].as_str().unwrap().to_string(),
        primary: json_key(v["keys"].get("primary")),
        tie: json_key(v["keys"].get("tie")),
    };
    check_cursor_version(payload).unwrap()
}

#[test]
fn cursor_round_trip() {
    let primary = SortKeyValue::Text("Beta".into());
    let c = encode_cursor("title", SortOrder::Asc, "fp1", &primary, 42);
    let decoded = decode(&c);
    assert_eq!(decoded.sort, "title");
    let (p, tie) =
        ensure_cursor_matches(&decoded, "title", SortOrder::Asc, "fp1", SortKeyKind::Text)
            .unwrap();
    assert_eq!(p, primary);
    assert_eq!(tie, 42);
}

#[test]
fn fingerprint_mismatch_errors() {
    let primary = SortKeyValue::Text("A".into());
    let c = encode_cursor("title", SortOrder::Asc, "fp1", &primary, 1);
    let decoded = decode(&c);
    assert!(
        ensure_cursor_matches(&decoded, "title", SortOrder::Asc, "fp2", SortKeyKind::Text)
            .is_err()
    );
}

#[test]
fn cursor_is_url_safe_base64_of_its_json() {
    let c = encode_cursor("year", SortOrder::Desc, "{\"q\":null}", &SortKeyValue::Int(-3), 7);
    let bytes = base64::engine::general_purpose::URL_SAFE_NO_PAD
        .decode(&c)
        .unwrap();
    assert_eq!(
        String::from_utf8(bytes).unwrap(),
        "{\"v\":1,\"sort\":\"year\",\"order\":\"desc\",\"fingerprint\":\"{\\\"q\\\":null}\",\"keys\":{\"primary\":-3,\"tie\":7}}"
    );
    assert!(!c.contains('='));
}

#[test]
fn cursor_with_bad_encoding_is_rejected() {
    let e = cursor_bytes("***").unwrap_err();
    assert_eq!(e.code(), "INVALID_CURSOR");
    assert_eq!(e.message(), "INVALID_CURSOR: invalid cursor encoding");
}

#[test]
fn cursor_of_other_version_is_rejected() {
    let payload = CursorPayload {
        v: 2,
        sort: "title".into(),
        order: SortOrder::Asc,
        fingerprint: "fp".into(),
        primary: None,
        tie: None,
    };
    let e = check_cursor_version(payload).unwrap_err();
    assert_eq!(e.message(), "INVALID_CURSOR: unsupported cursor version");
}

#[test]
fn cursor_checks_report_each_mismatch() {
    let base = CursorPayload {
        v: 1,
        sort: "title".into(),
        order: SortOrder::Asc,
        fingerprint: "fp".into(),
        primary: Some(CursorJson::Str("x".into())),
        tie: Some(CursorJson::Int(5)),
    };
    let e = ensure_cursor_matches(&base, "artist", SortOrder::Asc, "fp", SortKeyKind::Text)
        .unwrap_err();
    assert_eq!(e.message(), "INVALID_CURSOR: cursor sort does not match query");
    let e = ensure_cursor_matches(&base, "title", SortOrder::Desc, "fp", SortKeyKind::Text)
        .unwrap_err();
    assert_eq!(e.message(), "INVALID_CURSOR: cursor order does not match query");
    let e = ensure_cursor_matches(&base, "title", SortOrder::Asc, "fp", SortKeyKind::Int)
        .unwrap_err();
    assert_eq!(e.message(), "INVALID_CURSOR: invalid int key in cursor");
    let mut no_tie = base.clone();
    no_tie.tie = Some(CursorJson::Other);
    let e = ensure_cursor_matches(&no_tie, "title", SortOrder::Asc, "fp", SortKeyKind::Text)
        .unwrap_err();
    assert_eq!(e.message(), "INVALID_CURSOR: cursor missing tie key");
    let mut no_primary = base.clone();
    no_primary.primary = None;
    let e = ensure_cursor_matches(&no_primary, "title", SortOrder::Asc, "fp", SortKeyKind::Text)
        .unwrap_err();
    assert_eq!(e.message(), "INVALID_CURSOR: cursor missing primary key");
    let bool_cursor = CursorPayload {
        primary: Some(CursorJson::Int(2)),
        ..base.clone()
    };
    let e = ensure_cursor_matches(&bool_cursor, "title", SortOrder::Asc, "fp", SortKeyKind::Bool)
        .unwrap_err();
    assert_eq!(e.message(), "INVALID_CURSOR: invalid bool key in cursor");
}

#[test]
fn sort_order_parses_and_prints() {
    assert_eq!(SortOrder::parse("asc").unwrap(), SortOrder::Asc);
    assert_eq!(SortOrder::parse("desc").unwrap(), SortOrder::Desc);
    assert_eq!(
        SortOrder::parse("up").unwrap_err().message(),
        "order must be asc or desc"
    );
    assert_eq!(SortOrder::Desc.as_str(), "desc");
    assert_eq!(SortOrder::default(), SortOrder::Asc);
}

#[test]
fn parse_limit_defaults_and_bounds() {
    assert_eq!(parse_limit(0, 50, 200).unwrap(), 50);
    assert_eq!(parse_limit(10, 50, 200).unwrap(), 10);
    assert_eq!(
        parse_limit(201, 50, 200).unwrap_err().message(),
        "limit must be 1..=200"
    );
    assert!(parse_limit(0, 0, 200).is_err());
}

#[test]
fn keyset_clause_for_each_order() {
    let (c, binds) = keyset_and_clause(
        SortOrder::Desc,
        "a.title COLLATE NOCASE",
        "a.id",
        &SortKeyValue::Text("T".into()),
        9,
    );
    assert_eq!(
        c,
        "AND (a.title COLLATE NOCASE < ? OR (a.title COLLATE NOCASE = ? AND a.id > ?))"
    );
    assert_eq!(
        binds,
        vec![
            SortKeyValue::Text("T".into()),
            SortKeyValue::Text("T".into()),
            SortKeyValue::Int(9)
        ]
    );
    let (c, _) = keyset_and_clause(SortOrder::Asc, "x", "id", &SortKeyValue::Int(1), 2);
    assert_eq!(c, "AND (x > ? OR (x = ? AND id > ?))");
}

#[test]
fn finish_page_cuts_rows_and_points_past_last() {
    let rows = vec![(10i64, 1i64), (20, 2), (30, 3)];
    let page = finish_keyset_page(rows.clone(), 2, "id", SortOrder::Asc, "fp", |r| {
        (SortKeyValue::Int(r.0), r.1)
    });
    assert!(page.has_more);
    assert_eq!(page.items, vec![(10, 1), (20, 2)]);
    let c = page.next_cursor.unwrap();
    assert_eq!(
        c,
        encode_cursor("id", SortOrder::Asc, "fp", &SortKeyValue::Int(20), 2)
    );
    let page = finish_keyset_page(rows, 3, "id", SortOrder::Asc, "fp", |r| {
        (SortKeyValue::Int(r.0), r.1)
    });
    assert!(!page.has_more);
    assert_eq!(page.items.len(), 3);
    assert!(page.next_cursor.is_none());
}
