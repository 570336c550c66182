use euterpe_server::middleware::{
    admin_auth, check_auth, check_request_auth, log_http_response, log_http_success,
    path_allows_query_token, query_access_token_matches, unauthorized_error, LogLevel,
};

#[test]
fn query_access_token_decodes_url_encoded_value() {
    let expected = "tok&en=value% with space";
    assert!(query_access_token_matches(
        Some("access_token=tok%26en%3Dvalue%25+with+space"),
        expected
    ));
}

#[test]
fn query_access_token_does_not_match_encoded_bytes() {
    assert!(!query_access_token_matches(
        Some("access_token=tok%26en"),
        "tok%26en"
    ));
}

#[test]
fn query_access_token_needs_query_and_key() {
    assert!(!query_access_token_matches(None, "x"));
    assert!(!query_access_token_matches(Some("token=x"), "x"));
    assert!(query_access_token_matches(Some("cursor=1&access_token=x"), "x"));
}

#[test]
fn bearer_and_basic_headers() {
    assert!(check_auth("Bearer secret", "secret"));
    assert!(!check_auth("Bearer wrong", "secret"));
    assert!(check_auth("Basic YWRtaW46c2VjcmV0", "secret"));
    assert!(check_auth("Basic c2VjcmV0", "secret"));
    assert!(!check_auth("Basic not-base64!", "secret"));
    assert!(!check_auth("Digest secret", "secret"));
}

#[test]
fn query_token_only_on_stream_and_events() {
    assert!(path_allows_query_token("/api/v1/library/tracks/3/stream"));
    assert!(path_allows_query_token("/api/v1/events"));
    assert!(!path_allows_query_token("/api/v1/downloads"));
    assert!(check_request_auth(None, "/api/v1/events", Some("access_token=pw"), "pw"));
    assert!(!check_request_auth(None, "/api/v1/downloads", Some("access_token=pw"), "pw"));
}

#[test]
fn admin_auth_open_without_password() {
    assert!(admin_auth(None, None, "/api/v1/downloads", None));
    assert!(!admin_auth(Some("pw"), None, "/api/v1/downloads", None));
    assert!(admin_auth(Some("pw"), Some("Bearer pw"), "/api/v1/downloads", None));
    assert_eq!(unauthorized_error(), ("UNAUTHORIZED", "admin authentication required"));
}

#[test]
fn log_lines_by_status() {
    let line = log_http_response(503, 7, Some(("DATABASE_ERROR", "db down")));
    assert_eq!(line.level, LogLevel::Error);
    assert_eq!(line.text, "http response: server error");
    assert_eq!(line.code.as_deref(), Some("DATABASE_ERROR"));
    let line = log_http_response(404, 1, None);
    assert_eq!(line.text, "http response: client error");
    assert!(line.code.is_none());
    let line = log_http_response(200, 3, Some(("X", "y")));
    assert_eq!(line.level, LogLevel::Debug);
    assert_eq!(line.text, "http response");
    assert!(line.message.is_none());
    assert_eq!(log_http_success(204, 2).latency_ms, 2);
}
