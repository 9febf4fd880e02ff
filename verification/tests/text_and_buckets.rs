use axum_otel_metrics::buckets::bucket_index;
use axum_otel_metrics::buckets::duration_boundaries_ms;
use axum_otel_metrics::buckets::size_boundaries_bytes;
use axum_otel_metrics::text::parse_usize;
use axum_otel_metrics::text::str_starts_with;
use axum_otel_metrics::text::u16_to_dec;

#[test]
fn parse_usize_plain_numbers() {
    assert_eq!(parse_usize("0"), Some(0));
    assert_eq!(parse_usize("123"), Some(123));
    assert_eq!(parse_usize("000042"), Some(42));
}

#[test]
fn parse_usize_accepts_leading_plus() {
    assert_eq!(parse_usize("+7"), Some(7));
    assert_eq!(parse_usize("+"), None);
}

#[test]
fn parse_usize_rejects_non_numbers() {
    assert_eq!(parse_usize(""), None);
    assert_eq!(parse_usize("12a"), None);
    assert_eq!(parse_usize("-5"), None);
    assert_eq!(parse_usize(" 5"), None);
}

#[test]
fn parse_usize_rejects_overflow() {
    assert_eq!(parse_usize("99999999999999999999999999"), None);
    assert_eq!(parse_usize("18446744073709551615"), Some(usize::MAX));
}

#[test]
fn u16_to_dec_renders_decimal() {
    assert_eq!(u16_to_dec(0), "0");
    assert_eq!(u16_to_dec(7), "7");
    assert_eq!(u16_to_dec(200), "200");
    assert_eq!(u16_to_dec(404), "404");
    assert_eq!(u16_to_dec(65535), "65535");
}

#[test]
fn str_starts_with_matches_prefixes() {
    assert!(str_starts_with("/metrics", "/metrics"));
    assert!(str_starts_with("/metricsx", "/metrics"));
    assert!(!str_starts_with("/metric", "/metrics"));
    assert!(str_starts_with("anything", ""));
}

#[test]
fn duration_boundaries_are_the_fixed_contract_values() {
    let b = duration_boundaries_ms();
    assert_eq!(
        b,
        vec![0, 5, 10, 25, 50, 75, 100, 250, 500, 750, 1000, 2500, 5000, 7500, 10000]
    );
}

#[test]
fn size_boundaries_are_the_fixed_contract_values() {
    let b = size_boundaries_bytes();
    assert_eq!(
        b,
        vec![1024, 2048, 5120, 10240, 102400, 512000, 1048576, 2621440, 5242880, 10485760]
    );
}

#[test]
fn bucket_index_finds_first_boundary_at_least_value() {
    let b = duration_boundaries_ms();
    assert_eq!(bucket_index(&b, 0), 0);
    assert_eq!(bucket_index(&b, 1), 1);
    assert_eq!(bucket_index(&b, 100), 6);
    assert_eq!(bucket_index(&b, 20000), 15);
}

#[test]
fn a_120ms_observation_falls_in_the_100_to_250_bucket() {
    let b = duration_boundaries_ms();
    let i = bucket_index(&b, 120);
    assert_eq!(i, 7);
    assert_eq!(b[i - 1], 100);
    assert_eq!(b[i], 250);
}
