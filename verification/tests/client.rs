use serde_json::Value;
use tiktok::client::{outcome, read, status_error, status_error_named, transport_error, Client, Method, Reply};
use tiktok::error::ErrorCode;

fn j(text: &str) -> Value {
    serde_json::from_str(text).unwrap()
}

fn api_client(key: &str) -> Client {
    Client::new(key, Some("http://127.0.0.1:9/v2/".to_string()), None)
}

#[test]
fn status_maps_to_codes() {
    assert_eq!(status_error(401, "").code, ErrorCode::AuthRequired);
    assert_eq!(status_error(404, "").code, ErrorCode::NotFound);
    assert_eq!(status_error(429, "").code, ErrorCode::RateLimited);
    assert_eq!(status_error(422, "").code, ErrorCode::InvalidInput);
    assert_eq!(status_error(500, "").code, ErrorCode::Network);
}

#[test]
fn parses_apify_error_object() {
    let json = r#"{"error":{"type":"invalid-token","message":"The token is invalid."}}"#;
    let err = status_error(401, json);
    assert_eq!(err.message, "The token is invalid.");
}

#[test]
fn error_code_401() {
    let body = r#"{"error":{"message":"Invalid token"}}"#.to_string();
    let err = read(401, body.as_bytes()).unwrap_err();
    assert_eq!(err.exit_code(), 3);
    assert_eq!(err.code.as_str(), "auth_required");
}

#[test]
fn error_code_404() {
    let body = r#"{"error":"Not found"}"#.to_string();
    let err = read(404, body.as_bytes()).unwrap_err();
    assert_eq!(err.exit_code(), 4);
    assert_eq!(err.code.as_str(), "not_found");
}

#[test]
fn error_code_429() {
    let body = r#"{"error":"Rate limit exceeded"}"#.to_string();
    let err = read(429, body.as_bytes()).unwrap_err();
    assert_eq!(err.exit_code(), 5);
    assert_eq!(err.code.as_str(), "rate_limited");
}

#[test]
fn error_code_400() {
    let body = r#"{"error":"Bad request"}"#.to_string();
    let err = read(400, body.as_bytes()).unwrap_err();
    assert_eq!(err.exit_code(), 6);
    assert_eq!(err.code.as_str(), "invalid_input");
}

#[test]
fn status_error_messages_and_details() {
    let e = status_error(401, "");
    assert_eq!(e.message, "The Apify API token was rejected.");
    assert_eq!(e.detail.as_deref(), Some("HTTP 401"));
    assert_eq!(
        e.fix.as_deref(),
        Some("tiktok login")
    );

    let e = status_error(404, r#"{"error":"Not found"}"#);
    assert_eq!(e.message, "Not found");
    assert_eq!(e.detail.as_deref(), Some(r#"HTTP 404: {"error":"Not found"}"#));
    assert_eq!(e.fix, None);

    let e = status_error(403, r#"{"message":"Forbidden here"}"#);
    assert_eq!(e.code, ErrorCode::AuthRequired);
    assert_eq!(e.message, "Forbidden here");

    let e = status_error(503, r#"{"error":"ignored"}"#);
    assert_eq!(e.code, ErrorCode::Network);
    assert_eq!(e.message, "The Apify API returned a server error.");
    assert_eq!(e.fix.as_deref(), Some("Retry once; if it persists, check https://status.apify.com"));

    let e = status_error(418, "teapot");
    assert_eq!(e.code, ErrorCode::Error);
    assert_eq!(e.message, "The TikTok/Apify request failed.");
    assert_eq!(e.detail.as_deref(), Some("HTTP 418: teapot"));

    let e = status_error_named(429, "", Some("Slow down".to_string()));
    assert_eq!(e.message, "Slow down");
    assert_eq!(e.code, ErrorCode::RateLimited);
}

#[test]
fn error_object_without_string_message_falls_back() {
    let e = status_error(400, r#"{"error":{"type":"x"},"message":"top level"}"#);
    assert_eq!(e.message, "top level");
    let e = status_error(400, r#"{"error":{"message":5}}"#);
    assert_eq!(e.message, "The Apify API rejected the request parameters.");
    let e = status_error(422, "not json");
    assert_eq!(e.message, "The Apify API rejected the request parameters.");
}

#[test]
fn read_success_bodies() {
    let v = read(200, b" \n\t ").unwrap();
    assert_eq!(v, j("{}"));
    let v = read(204, b"").unwrap();
    assert_eq!(v, j("{}"));
    let v = read(200, br#"[{"id":"1"}]"#).unwrap();
    assert_eq!(v, j(r#"[{"id":"1"}]"#));
    let v = read(201, b"plain text").unwrap();
    assert_eq!(v, Value::String("plain text".to_string()));
}

#[test]
fn read_error_body_is_trimmed_and_lossy() {
    let e = read(500, b"  oops \xff  ").unwrap_err();
    assert_eq!(e.detail.as_deref(), Some("HTTP 500: oops \u{fffd}"));
}

#[test]
fn transport_errors() {
    let e = transport_error(true, "ignored".to_string());
    assert_eq!(e.code, ErrorCode::Network);
    assert_eq!(e.message, "The request timed out.");
    assert_eq!(e.detail, None);
    let e = transport_error(false, "connection refused".to_string());
    assert_eq!(e.message, "Could not reach the Apify API.");
    assert_eq!(e.detail.as_deref(), Some("connection refused"));
    assert_eq!(e.fix.as_deref(), Some("Check your internet connection, APIFY_TOKEN, or TIKTOK_API_URL."));
}

#[test]
fn base_url_selection() {
    assert_eq!(Client::new("k", None, None).base, "https://api.apify.com/v2/");
    assert_eq!(Client::new("k", Some("http://x/v2".to_string()), None).base, "http://x/v2/");
    assert_eq!(Client::new("k", None, Some("http://y/".to_string())).base, "http://y/");
    assert_eq!(
        Client::new("k", Some("http://x/".to_string()), Some("http://y/".to_string())).base,
        "http://x/"
    );
    // A blank TIKTOK_API_URL chooses the default, not APIFY_API_URL.
    assert_eq!(
        Client::new("k", Some("   ".to_string()), Some("http://y/".to_string())).base,
        "https://api.apify.com/v2/"
    );
    assert_eq!(Client::new("  secret \n", None, None).token, "secret");
}

#[test]
fn requests_are_addressed_and_authenticated() {
    let c = api_client(" token_flag ");
    let r = c.get("/users/me");
    assert_eq!(r.method, Method::Get);
    assert_eq!(r.url, "http://127.0.0.1:9/v2/users/me");
    assert_eq!(
        r.headers,
        vec![
            ("Authorization".to_string(), "Bearer token_flag".to_string()),
            ("Accept".to_string(), "application/json".to_string()),
        ]
    );
    assert!(r.body.is_none());

    let body = j(r#"{"profiles":["nike"]}"#);
    let r = c.scrape(&body);
    assert_eq!(r.method, Method::Post);
    assert_eq!(
        r.url,
        "http://127.0.0.1:9/v2/acts/clockworks~tiktok-scraper/run-sync-get-dataset-items?token=token_flag"
    );
    assert_eq!(r.headers.len(), 3);
    assert_eq!(r.headers[2], ("Content-Type".to_string(), "application/json".to_string()));
    assert_eq!(r.body, Some(body));
}

#[test]
fn unauthorized_envelope_matches_manual() {
    let r = status_error(401, "Unauthorized");
    assert_eq!(r.code.as_str(), "auth_required");
    assert_eq!(r.message, "The Apify API token was rejected.");
    assert_eq!(r.detail.as_deref(), Some("HTTP 401: Unauthorized"));
    assert_eq!(r.fix.as_deref(), Some("tiktok login"));
}

#[test]
fn outcomes_of_sending() {
    let v = outcome(Reply::Response { status: 200, body: br#"[1]"#.to_vec() }).unwrap();
    assert_eq!(v, j("[1]"));
    let e = outcome(Reply::Response { status: 404, body: Vec::new() }).unwrap_err();
    assert_eq!(e.code, ErrorCode::NotFound);
    let e = outcome(Reply::Failed { timed_out: true, description: "t".to_string() }).unwrap_err();
    assert_eq!(e.code, ErrorCode::Network);
    assert_eq!(e.message, "The request timed out.");
}
