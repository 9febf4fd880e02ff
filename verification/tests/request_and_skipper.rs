use axum_otel_metrics::request::compute_approximate_request_size;
use axum_otel_metrics::request::content_length;
use axum_otel_metrics::request::host_label;
use axum_otel_metrics::request::resolve_scheme;
use axum_otel_metrics::request::HeaderFact;
use axum_otel_metrics::request::RequestFacts;
use axum_otel_metrics::skipper::PathSkipper;

fn header(name: &str, value: &str) -> HeaderFact {
    HeaderFact {
        name: name.to_string(),
        value: Some(value.to_string()),
        value_len: value.len(),
    }
}

fn unreadable_header(name: &str, value_len: usize) -> HeaderFact {
    HeaderFact { name: name.to_string(), value: None, value_len }
}

fn facts(path: &str, method: &str, headers: Vec<HeaderFact>) -> RequestFacts {
    RequestFacts {
        path: path.to_string(),
        method: method.to_string(),
        headers,
        uri_host_len: 0,
        matched_route: None,
    }
}

#[test]
fn default_skipper_rejects_metrics_and_favicon_prefixes() {
    let s = PathSkipper::default();
    assert!(s.evaluate("/metrics"));
    assert!(s.evaluate("/metricsx"));
    assert!(s.evaluate("/metrics/sub"));
    assert!(s.evaluate("/favicon.ico"));
    assert!(s.evaluate("/favicon.ico.png"));
    assert!(!s.evaluate("/hello"));
    assert!(!s.evaluate("/"));
    assert!(!s.evaluate(""));
}

#[test]
fn prefix_skipper_matches_its_own_prefixes() {
    let s = PathSkipper::new(vec!["/internal".to_string(), "/health".to_string()]);
    assert!(s.evaluate("/internal/x"));
    assert!(s.evaluate("/health"));
    assert!(!s.evaluate("/metrics"));
}

#[test]
fn fixed_skipper_has_a_constant_verdict() {
    let all = PathSkipper::new_with_fn(true);
    assert!(all.evaluate("/anything"));
    assert!(all.evaluate(""));
    let none = PathSkipper::new_with_fn(false);
    assert!(!none.evaluate("/metrics"));
}

#[test]
fn request_size_sums_path_method_and_header_lengths() {
    // path `/a` (2) + method `GET` (3) + header `x-test: v` (6 + 1),
    // no content-length, no host.
    let f = facts("/a", "GET", vec![header("x-test", "v")]);
    assert_eq!(compute_approximate_request_size(&f), 12);
}

#[test]
fn request_size_adds_parsed_content_length_and_host() {
    let mut f = facts("/a/b", "POST", vec![header("content-length", "42")]);
    f.uri_host_len = 9;
    // path 4 + method 4 + header (14 + 2) + host 9 + parsed 42
    assert_eq!(compute_approximate_request_size(&f), 75);
}

#[test]
fn request_size_treats_unparseable_content_length_as_zero() {
    let f = facts("/a", "GET", vec![header("content-length", "many")]);
    // path 2 + method 3 + header (14 + 4) + 0
    assert_eq!(compute_approximate_request_size(&f), 23);
}

#[test]
fn content_length_falls_back_to_zero_on_anomalies() {
    assert_eq!(content_length(&vec![]), 0);
    assert_eq!(content_length(&vec![header("content-length", "10")]), 10);
    assert_eq!(content_length(&vec![header("content-length", "x")]), 0);
    assert_eq!(content_length(&vec![unreadable_header("content-length", 3)]), 0);
    assert_eq!(
        content_length(&vec![header("content-length", "99999999999999999999999999")]),
        0
    );
}

#[test]
fn scheme_is_https_when_the_server_runs_tls() {
    let hs = vec![header("x-forwarded-proto", "ftp")];
    assert_eq!(resolve_scheme(true, &hs), "https");
}

#[test]
fn scheme_follows_proxy_headers_in_order() {
    assert_eq!(resolve_scheme(false, &vec![header("x-forwarded-proto", "https")]), "https");
    assert_eq!(resolve_scheme(false, &vec![header("x-forwarded-protocol", "wss")]), "wss");
    assert_eq!(resolve_scheme(false, &vec![header("x-url-scheme", "gopher")]), "gopher");
    let both = vec![header("x-url-scheme", "b"), header("x-forwarded-proto", "a")];
    assert_eq!(resolve_scheme(false, &both), "a");
}

#[test]
fn scheme_defaults_to_http() {
    assert_eq!(resolve_scheme(false, &vec![]), "http");
    // An unreadable proxy header falls through to the next rule.
    let hs = vec![unreadable_header("x-forwarded-proto", 5)];
    assert_eq!(resolve_scheme(false, &hs), "http");
}

#[test]
fn host_label_defaults_to_unknown() {
    assert_eq!(host_label(&vec![header("host", "example.com")]), "example.com");
    assert_eq!(host_label(&vec![]), "unknown");
    assert_eq!(host_label(&vec![unreadable_header("host", 3)]), "unknown");
}
