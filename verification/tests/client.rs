use ferro_protect::auth::{ApiKey, API_KEY_HEADER};
use ferro_protect::client::{
    parse_base_url, route, strip_leading_slashes, Layer, ProtectClientBuilder, RetryConfig, Route, TlsMode,
};
use ferro_protect::error::Error;
use ferro_protect::rate_limit::{NonZeroU32, RateLimitConfig};
use ferro_protect::time::Duration;

#[test]
fn missing_api_key_is_reported_first() {
    let r = ProtectClientBuilder::new().plan();
    assert!(matches!(r, Err(Error::MissingApiKey)));
}

#[test]
fn missing_host_and_base_url() {
    match ProtectClientBuilder::new().api_key("k".to_string()).plan() {
        Err(Error::InvalidUrl(m)) => assert_eq!(m, "either host or base_url must be set"),
        _ => panic!("expected InvalidUrl"),
    }
}

#[test]
fn host_builds_integration_base_url_with_default_layers() {
    let p = ProtectClientBuilder::new()
        .host("nvr.local".to_string())
        .api_key("test-key".to_string())
        .plan()
        .unwrap_or_else(|_| panic!("plan"));
    assert_eq!(p.base_url.url().as_str(), "https://nvr.local/proxy/protect/integration/");
    assert_eq!(p.api_key_header.value().to_str().unwrap(), "test-key");
    assert!(p.api_key_header.value().is_sensitive());
    assert_eq!(p.read_layers, vec![Layer::Retry, Layer::RateLimit]);
    assert_eq!(p.write_layers, vec![Layer::RateLimit]);
    assert_eq!(p.retry.max_retries, 3);
    assert_eq!(p.retry.initial_backoff, Duration::from_millis(200));
    assert_eq!(p.retry.max_backoff, Duration::from_secs(5));
    assert_eq!(p.rate_limit, Some(RateLimitConfig::default()));
    assert!(p.root_certificate.is_none());
    assert!(!p.retry_on_mutations);
}

#[test]
fn base_url_wins_over_host_and_keeps_trailing_slash() {
    let p = ProtectClientBuilder::new()
        .host("ignored".to_string())
        .base_url("http://127.0.0.1:8080/base/".to_string())
        .api_key("k".to_string())
        .plan()
        .unwrap_or_else(|_| panic!("plan"));
    assert_eq!(p.base_url.url().as_str(), "http://127.0.0.1:8080/base/");
}

#[test]
fn invalid_base_url_is_invalid_url() {
    match ProtectClientBuilder::new().base_url("not a url".to_string()).api_key("k".to_string()).plan() {
        Err(Error::InvalidUrl(m)) => assert!(m.starts_with("not a url/: "), "{m}"),
        _ => panic!("expected InvalidUrl"),
    }
}

#[test]
fn api_key_with_control_char_is_rejected() {
    match ProtectClientBuilder::new().host("h".to_string()).api_key("bad\nkey".to_string()).plan() {
        Err(Error::Other(m)) => {
            assert_eq!(m, "invalid api key for header: failed to parse header value")
        }
        _ => panic!("expected Other"),
    }
}

#[test]
fn retry_on_mutations_and_no_rate_limit_change_layers() {
    let p = ProtectClientBuilder::new()
        .host("h".to_string())
        .api_key("k".to_string())
        .retry_on_mutations(true)
        .rate_limit(None)
        .plan()
        .unwrap_or_else(|_| panic!("plan"));
    assert_eq!(p.read_layers, vec![Layer::Retry]);
    assert_eq!(p.write_layers, vec![Layer::Retry]);
    assert_eq!(p.rate_limit, None);
}

#[test]
fn custom_retry_and_rate_limit_are_kept() {
    let rl = RateLimitConfig { rate: NonZeroU32::new(5).unwrap(), per: Duration::from_secs(2) };
    let rc = RetryConfig {
        max_retries: 7,
        initial_backoff: Duration::from_millis(10),
        max_backoff: Duration::from_millis(20),
    };
    let p = ProtectClientBuilder::new()
        .host("h".to_string())
        .api_key("k".to_string())
        .retry(rc)
        .rate_limit(Some(rl))
        .tls(TlsMode::AcceptInvalid)
        .plan()
        .unwrap_or_else(|_| panic!("plan"));
    assert_eq!(p.retry.max_retries, 7);
    assert_eq!(p.retry.initial_backoff, Duration::from_millis(10));
    assert_eq!(p.rate_limit, Some(rl));
    assert!(matches!(p.tls, TlsMode::AcceptInvalid));
}

#[test]
fn pinned_tls_keeps_a_certificate() {
    let p = ProtectClientBuilder::new()
        .host("h".to_string())
        .api_key("k".to_string())
        .tls(TlsMode::Pinned(b"-----BEGIN CERTIFICATE-----\n".to_vec()))
        .plan()
        .unwrap_or_else(|_| panic!("plan"));
    assert!(p.root_certificate.is_some());
}

#[test]
fn retry_config_default_values() {
    let c = RetryConfig::default();
    assert_eq!(c.max_retries, 3);
    assert_eq!(c.initial_backoff, Duration::from_millis(200));
    assert_eq!(c.max_backoff, Duration::from_secs(5));
}

#[test]
fn parse_base_url_adds_slash() {
    let u = parse_base_url("https://nvr/proxy").unwrap_or_else(|_| panic!("parses"));
    assert_eq!(u.url().as_str(), "https://nvr/proxy/");
    let j = u.url().join(&strip_leading_slashes("/v1/meta/info")).unwrap();
    assert_eq!(j.as_str(), "https://nvr/proxy/v1/meta/info");
}

#[test]
fn strip_leading_slashes_cases() {
    assert_eq!(strip_leading_slashes("///v1/x"), "v1/x");
    assert_eq!(strip_leading_slashes("v1/x/"), "v1/x/");
    assert_eq!(strip_leading_slashes("/"), "");
    assert_eq!(strip_leading_slashes(""), "");
}

#[test]
fn api_key_header_value() {
    assert_eq!(API_KEY_HEADER, "x-api-key");
    let h = ApiKey::new("abc".to_string()).header_value().unwrap_or_else(|_| panic!("valid key"));
    let v = h.value();
    assert_eq!(v.to_str().unwrap(), "abc");
    assert!(v.is_sensitive());
    assert!(ApiKey::new("a\u{7f}".to_string()).header_value().is_err());
    assert!(ApiKey::new("tab\tok".to_string()).header_value().is_ok());
}

#[test]
fn idempotent_requests_take_the_retrying_read_stack() {
    assert_eq!(route(true), Route::Read);
    assert_eq!(route(false), Route::Write);
    let p = ProtectClientBuilder::new()
        .base_url("http://127.0.0.1:1/".to_string())
        .api_key("k".to_string())
        .plan()
        .unwrap_or_else(|_| panic!("plans"));
    assert_eq!(p.read_layers, vec![Layer::Retry, Layer::RateLimit]);
    assert_eq!(p.write_layers, vec![Layer::RateLimit]);
}

#[test]
fn plan_with_url_keeps_the_parsed_url() {
    let u = parse_base_url("http://127.0.0.1:7").unwrap_or_else(|_| panic!("parses"));
    let p = ProtectClientBuilder::new()
        .api_key("test-key".to_string())
        .plan_with_url(u)
        .unwrap_or_else(|_| panic!("plans"));
    assert_eq!(p.base_url.url().as_str(), "http://127.0.0.1:7/");
    assert_eq!(p.api_key_header.value().to_str().unwrap(), "test-key");
    let u = parse_base_url("http://127.0.0.1:7").unwrap_or_else(|_| panic!("parses"));
    assert!(matches!(ProtectClientBuilder::new().plan_with_url(u), Err(Error::MissingApiKey)));
}
