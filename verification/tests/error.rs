use ferro_protect::error::{truncate_body, ApiErrorBody, Error, BODY_LIMIT};

fn api(e: Error) -> (u16, String, String) {
    match e {
        Error::Api { status, code, message } => (status, code, message),
        other => panic!("expected Api error, got {other:?}"),
    }
}

#[test]
fn structured_body_maps_name_and_error() {
    let body = ApiErrorBody {
        name: "notFound".to_string(),
        error: Some("Camera abc123 not found".to_string()),
        message: Some("ignored".to_string()),
    };
    let (status, code, message) = api(Error::from_body(404, Some(body), "{}"));
    assert_eq!(status, 404);
    assert_eq!(code, "notFound");
    assert_eq!(message, "Camera abc123 not found");
}

#[test]
fn body_message_falls_back_to_message_then_placeholder() {
    let b = ApiErrorBody { name: "unauthorized".to_string(), error: None, message: Some("Invalid API key".to_string()) };
    assert_eq!(b.message(), "Invalid API key");
    let b = ApiErrorBody { name: "x".to_string(), error: None, message: None };
    assert_eq!(b.message(), "(no message)");
}

#[test]
fn unparsed_body_is_unknown_with_raw_text() {
    let (status, code, message) = api(Error::from_body(502, None, "bad gateway"));
    assert_eq!(status, 502);
    assert_eq!(code, "unknown");
    assert_eq!(message, "bad gateway");
}

#[test]
fn long_body_is_truncated_with_ellipsis() {
    let raw = "a".repeat(600);
    let t = truncate_body(&raw);
    assert_eq!(t, format!("{}...", "a".repeat(BODY_LIMIT)));
    let exact = "b".repeat(BODY_LIMIT);
    assert_eq!(truncate_body(&exact), exact);
    assert_eq!(truncate_body(""), "");
}

#[test]
fn truncation_keeps_whole_characters() {
    let raw = "é".repeat(300);
    let t = truncate_body(&raw);
    assert_eq!(t, format!("{}...", "é".repeat(256)));
}

#[test]
fn error_messages() {
    let e = Error::Api { status: 404, code: "notFound".to_string(), message: "Camera abc123 not found".to_string() };
    assert_eq!(e.message(), "API error 404 (notFound): Camera abc123 not found");
    assert_eq!(Error::InvalidUrl("x: relative URL without a base".to_string()).message(), "Invalid URL: x: relative URL without a base");
    assert_eq!(Error::MissingApiKey.message(), "API key not provided");
    assert_eq!(Error::Other("boom".to_string()).message(), "boom");
}
