use std::time::Instant;
use axum_otel_metrics::builder::identity_labels;
use axum_otel_metrics::builder::qualified_name;
use axum_otel_metrics::builder::HttpMetricsLayerBuilder;
use axum_otel_metrics::layer::plan_completion;
use axum_otel_metrics::layer::RequestContext;
use axum_otel_metrics::request::HeaderFact;
use axum_otel_metrics::request::RequestFacts;
use axum_otel_metrics::skipper::PathSkipper;

fn get_facts(route: Option<&str>) -> RequestFacts {
    RequestFacts {
        path: "/hello".to_string(),
        method: "GET".to_string(),
        headers: vec![HeaderFact {
            name: "host".to_string(),
            value: Some("example.com".to_string()),
            value_len: 11,
        }],
        uri_host_len: 0,
        matched_route: route.map(|r| r.to_string()),
    }
}

#[test]
fn builder_setters_store_their_values() {
    let b = HttpMetricsLayerBuilder::new()
        .with_service_name("svc".to_string())
        .with_service_version("1.2.3".to_string())
        .with_prefix("pfx".to_string())
        .with_path("/observe".to_string())
        .with_labels(vec![("env".to_string(), "testing".to_string())])
        .with_exporter("prometheus".to_string());
    assert_eq!(b.service_name.as_deref(), Some("svc"));
    assert_eq!(b.service_version.as_deref(), Some("1.2.3"));
    assert_eq!(b.prefix.as_deref(), Some("pfx"));
    assert_eq!(b.path, "/observe");
    assert_eq!(b.labels, Some(vec![("env".to_string(), "testing".to_string())]));
    assert_eq!(b.exporter.as_deref(), Some("prometheus"));
    assert!(!b.is_tls);
}

#[test]
fn qualified_name_appends_namespace_once() {
    assert_eq!(qualified_name("foo".to_string(), &"ns1".to_string()), "foo.ns1");
    assert_eq!(qualified_name("ns1.foo".to_string(), &"ns1".to_string()), "ns1.foo");
    assert_eq!(qualified_name("foo".to_string(), &String::new()), "foo");
}

#[test]
fn identity_labels_assemble_in_order() {
    let labels = identity_labels(
        &Some("svc".to_string()),
        &Some("2.0".to_string()),
        &"ns1".to_string(),
        &"10.0.0.9".to_string(),
    );
    assert_eq!(
        labels,
        vec![
            ("service.namespace".to_string(), "ns1".to_string()),
            ("service.instance".to_string(), "10.0.0.9".to_string()),
            ("service.name".to_string(), "svc.ns1".to_string()),
            ("service.version".to_string(), "2.0".to_string()),
        ]
    );
    assert_eq!(identity_labels(&None, &None, &String::new(), &String::new()), vec![]);
}

#[test]
fn scrape_before_any_traffic_succeeds() {
    let layer = HttpMetricsLayerBuilder::new()
        .with_prefix("quiet_app".to_string())
        .build()
        .unwrap();
    assert!(layer.state.registry.is_some());
    assert_eq!(layer.path, "/metrics");
    let text = layer.state.render_metrics().unwrap();
    assert_ne!(text, "#no prometheus registry");
}

#[test]
fn push_mode_has_no_local_registry_and_a_placeholder_scrape() {
    let layer = HttpMetricsLayerBuilder::new()
        .with_exporter("otlp".to_string())
        .build()
        .unwrap();
    assert!(layer.state.registry.is_none());
    assert_eq!(layer.state.render_metrics().unwrap(), "#no prometheus registry");
}

#[test]
fn two_status_codes_make_two_series_and_the_gauge_returns_to_zero() {
    let layer = HttpMetricsLayerBuilder::new()
        .with_prefix("busy_app".to_string())
        .build()
        .unwrap();
    let state = &layer.state;

    let ctx = state.on_request(&get_facts(Some("/hello")));
    let plan = state.on_response(ctx, 200, 64);
    assert!(plan.record.is_some());

    let ctx2 = state.on_request(&get_facts(Some("/hello")));
    let plan2 = state.on_response(ctx2, 404, 16);
    assert!(plan2.record.is_some());

    let text = state.render_metrics().unwrap();
    assert!(text.contains("requests_total"));
    assert!(text.contains("http_response_status_code=\"200\""));
    assert!(text.contains("http_response_status_code=\"404\""));
    assert!(text.contains("http_route=\"/hello\""));
    assert!(text.contains("server_address=\"example.com\""));

    let mut saw_gauge = false;
    for line in text.lines() {
        if line.contains("active_requests{") {
            saw_gauge = true;
            assert!(line.ends_with(" 0"), "gauge not balanced: {line}");
        }
    }
    assert!(saw_gauge);
}

#[test]
fn skipped_routes_record_nothing_but_still_balance_the_gauge() {
    let layer = HttpMetricsLayerBuilder::new()
        .with_prefix("skipped_app".to_string())
        .build()
        .unwrap();
    let state = &layer.state;

    let ctx = state.on_request(&get_facts(Some("/metrics")));
    let plan = state.on_response(ctx, 200, 64);
    assert!(plan.record.is_none());

    let text = state.render_metrics().unwrap();
    assert!(!text.contains("http_route=\"/metrics\""));

    let mut saw_gauge = false;
    for line in text.lines() {
        if line.contains("active_requests{") {
            saw_gauge = true;
            assert!(line.ends_with(" 0"), "gauge not balanced: {line}");
        }
    }
    assert!(saw_gauge);
}

#[test]
fn abandoned_requests_still_balance_the_gauge() {
    let layer = HttpMetricsLayerBuilder::new()
        .with_prefix("flaky_app".to_string())
        .build()
        .unwrap();
    let state = &layer.state;

    let ctx = state.on_request(&get_facts(None));
    let dec = state.on_abandon(ctx);
    assert_eq!(dec.method, "GET");
    assert_eq!(dec.scheme, "http");

    let text = state.render_metrics().unwrap();
    assert!(!text.contains("requests_total{"));
    for line in text.lines() {
        if line.contains("active_requests{") {
            assert!(line.ends_with(" 0"), "gauge not balanced: {line}");
        }
    }
}

#[test]
fn duration_buckets_appear_in_the_exposition() {
    let layer = HttpMetricsLayerBuilder::new()
        .with_prefix("bucket_app".to_string())
        .build()
        .unwrap();
    let state = &layer.state;
    let ctx = state.on_request(&get_facts(Some("/hello")));
    let _ = state.on_response(ctx, 200, 64);
    let text = state.render_metrics().unwrap();
    assert!(text.contains("le=\"250\""));
    assert!(text.contains("le=\"10000\""));
    assert!(text.contains("le=\"2621440\""));
}

#[test]
fn a_held_completion_plans_the_measured_duration() {
    let ctx = RequestContext {
        start: Instant::now(),
        method: "GET".to_string(),
        route: "/hold".to_string(),
        scheme: "http".to_string(),
        host: "example.com".to_string(),
        req_size: 12,
    };
    let plan = plan_completion(&ctx, &PathSkipper::default(), 200, 3, 120);
    let rec = plan.record.unwrap();
    assert_eq!(rec.duration_ms, 120);
    assert_eq!(rec.request_size, 12);
    assert_eq!(rec.response_size, 3);
    assert_eq!(rec.labels.status, "200");
    assert_eq!(plan.dec.method, "GET");
}

#[test]
fn the_qualified_service_name_reaches_the_exposition() {
    let layer = HttpMetricsLayerBuilder::new()
        .with_service_name("svc".to_string())
        .with_service_version("2.0".to_string())
        .with_prefix("named_app".to_string())
        .build_with_identity("ns1".to_string(), "10.0.0.9".to_string())
        .unwrap();
    let text = layer.state.render_metrics().unwrap();
    assert!(text.contains("service_name=\"svc.ns1\""), "missing qualified name: {text}");
}

#[test]
fn an_empty_registry_prefix_is_a_build_error() {
    let r = HttpMetricsLayerBuilder::new()
        .with_prefix(String::new())
        .build();
    assert!(r.is_err());
}

#[test]
fn the_scrape_path_is_configurable() {
    let layer = HttpMetricsLayerBuilder::new()
        .with_path("/observe".to_string())
        .with_prefix("pathed_app".to_string())
        .build()
        .unwrap();
    assert_eq!(layer.path, "/observe");
}

#[test]
fn http_metrics_wraps_a_service_with_the_shared_state() {
    let layer = HttpMetricsLayerBuilder::new()
        .with_prefix("wrap_app".to_string())
        .build()
        .unwrap();
    let wrapped = axum_otel_metrics::layer::HttpMetrics::new(layer.state, "inner");
    assert_eq!(wrapped.service, "inner");
    assert!(wrapped.state.registry.is_some());
}

#[test]
fn a_tls_layer_labels_the_scheme_https() {
    let layer = HttpMetricsLayerBuilder::new()
        .with_prefix("plain_app".to_string())
        .build()
        .unwrap();
    assert!(!layer.state.is_tls);
    let ctx = layer.state.on_request(&get_facts(None));
    assert_eq!(ctx.scheme, "http");
    let _ = layer.state.on_abandon(ctx);
}
