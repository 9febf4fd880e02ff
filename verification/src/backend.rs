//! The trusted boundary to the metrics backend: the OpenTelemetry
//! instruments and meter provider, the Prometheus registry and text
//! encoder, and the monotonic clock. Each item here makes one outside
//! call; everything that decides or computes stays in the verified
//! modules.

use vstd::prelude::*;
use opentelemetry::metrics::Counter;
use opentelemetry::metrics::Histogram;
use opentelemetry::metrics::Meter;
use opentelemetry::metrics::MeterProvider;
use opentelemetry::metrics::UpDownCounter;
use opentelemetry_sdk::metrics::Aggregation;
use opentelemetry_sdk::metrics::Instrument;
use opentelemetry_sdk::metrics::PeriodicReader;
use opentelemetry_sdk::metrics::SdkMeterProvider;
use opentelemetry_sdk::metrics::Stream;
use opentelemetry_sdk::metrics::new_view;
use opentelemetry_sdk::Resource;
use std::time::Instant;

verus! {

#[verifier::external_type_specification]
#[verifier::external_body]
#[verifier::reject_recursive_types(T)]
pub struct ExCounter<T>(Counter<T>);

#[verifier::external_type_specification]
#[verifier::external_body]
#[verifier::reject_recursive_types(T)]
pub struct ExHistogram<T>(Histogram<T>);

#[verifier::external_type_specification]
#[verifier::external_body]
#[verifier::reject_recursive_types(T)]
pub struct ExUpDownCounter<T>(UpDownCounter<T>);

#[verifier::external_type_specification]
#[verifier::external_body]
pub struct ExMeter(Meter);

#[verifier::external_type_specification]
#[verifier::external_body]
pub struct ExSdkMeterProvider(SdkMeterProvider);

#[verifier::external_type_specification]
#[verifier::external_body]
pub struct ExResource(Resource);

#[verifier::external_type_specification]
#[verifier::external_body]
pub struct ExPeriodicReader(PeriodicReader);

#[verifier::external_type_specification]
#[verifier::external_body]
pub struct ExInstrument(Instrument);

#[verifier::external_type_specification]
#[verifier::external_body]
pub struct ExStream(Stream);

#[verifier::external_type_specification]
#[verifier::external_body]
pub struct ExRegistry(prometheus::Registry);

#[verifier::external_type_specification]
#[verifier::external_body]
pub struct ExInstant(Instant);

/// Relies on opentelemetry `Counter::add`: one observation of the given
/// value with the given attributes, on an internally synchronized
/// instrument.
#[verifier::external_body]
pub(crate) fn counter_add(c: &Counter<u64>, value: u64, labels: &Vec<(String, String)>) {
    let attrs: Vec<opentelemetry::KeyValue> = labels.iter().map(
        |p| opentelemetry::KeyValue::new(p.0.clone(), p.1.clone()),
    ).collect();
    c.add(value, &attrs);
}

/// Relies on opentelemetry `Histogram::record`: one observation of the
/// given value with the given attributes.
#[verifier::external_body]
pub(crate) fn histogram_record(h: &Histogram<u64>, value: u64, labels: &Vec<(String, String)>) {
    let attrs: Vec<opentelemetry::KeyValue> = labels.iter().map(
        |p| opentelemetry::KeyValue::new(p.0.clone(), p.1.clone()),
    ).collect();
    h.record(value, &attrs);
}

/// Relies on opentelemetry `UpDownCounter::add`: moves the gauge by the
/// given delta with the given attributes.
#[verifier::external_body]
pub(crate) fn updown_add(c: &UpDownCounter<i64>, delta: i64, labels: &Vec<(String, String)>) {
    let attrs: Vec<opentelemetry::KeyValue> = labels.iter().map(
        |p| opentelemetry::KeyValue::new(p.0.clone(), p.1.clone()),
    ).collect();
    c.add(delta, &attrs);
}

/// Relies on opentelemetry `Meter::u64_counter` and
/// `InstrumentBuilder::try_init`: creates the named counter, failing on an
/// invalid instrument name.
#[verifier::external_body]
pub(crate) fn make_counter(meter: &Meter, name: &str, desc: &str) -> (r: Result<Counter<u64>, String>) {
    match meter.u64_counter(name.to_owned()).with_description(desc.to_owned()).try_init() {
        Ok(c) => Ok(c),
        Err(e) => Err(e.to_string()),
    }
}

/// Relies on opentelemetry `Meter::u64_histogram` and
/// `InstrumentBuilder::try_init`: creates the named histogram with the
/// given unit, failing on an invalid instrument name or unit.
#[verifier::external_body]
pub(crate) fn make_histogram(meter: &Meter, name: &str, desc: &str, unit: &str) -> (r: Result<
    Histogram<u64>,
    String,
>) {
    match meter.u64_histogram(name.to_owned()).with_unit(unit.to_owned()).with_description(
        desc.to_owned(),
    ).try_init() {
        Ok(h) => Ok(h),
        Err(e) => Err(e.to_string()),
    }
}

/// Relies on opentelemetry `Meter::i64_up_down_counter` and
/// `InstrumentBuilder::try_init`: creates the named up/down counter,
/// failing on an invalid instrument name.
#[verifier::external_body]
pub(crate) fn make_up_down_counter(meter: &Meter, name: &str, desc: &str) -> (r: Result<
    UpDownCounter<i64>,
    String,
>) {
    match meter.i64_up_down_counter(name.to_owned()).with_description(desc.to_owned()).try_init() {
        Ok(c) => Ok(c),
        Err(e) => Err(e.to_string()),
    }
}

/// Relies on prometheus `Registry::new` and `Registry::new_custom`: a
/// fresh registry, with the given name prefix and fixed labels when a
/// prefix is given; `new_custom` fails on an empty prefix.
#[verifier::external_body]
pub(crate) fn make_registry(prefix: Option<String>, labels: Option<Vec<(String, String)>>) -> (r:
    Result<prometheus::Registry, String>) {
    match prefix {
        Some(p) => {
            let label_map: Option<std::collections::HashMap<String, String>> = labels.map(
                |ls| ls.into_iter().collect(),
            );
            match prometheus::Registry::new_custom(Some(p), label_map) {
                Ok(r) => Ok(r),
                Err(e) => Err(e.to_string()),
            }
        },
        None => Ok(prometheus::Registry::new()),
    }
}

/// Relies on opentelemetry_sdk `Resource::from_detectors` with the SDK,
/// environment and telemetry detectors: the process identity read from
/// the environment. The result depends on the environment.
#[verifier::external_body]
pub(crate) fn detect_resource() -> Resource {
    Resource::from_detectors(
        core::time::Duration::from_secs(6),
        vec![
            Box::new(opentelemetry_sdk::resource::SdkProvidedResourceDetector),
            Box::new(opentelemetry_sdk::resource::EnvResourceDetector::new()),
            Box::new(opentelemetry_sdk::resource::TelemetryResourceDetector),
        ],
    )
}

/// Relies on opentelemetry_sdk `Resource::new` and `Resource::merge`: the
/// given key/values merged over the base resource.
#[verifier::external_body]
pub(crate) fn resource_with_labels(base: Resource, kvs: Vec<(String, String)>) -> (r: Resource) {
    let extra: Vec<opentelemetry::KeyValue> = kvs.into_iter().map(
        |p| opentelemetry::KeyValue::new(p.0, p.1),
    ).collect();
    base.merge(&mut Resource::new(extra))
}

/// Relies on opentelemetry_sdk `Instrument::new().name()`: a view
/// criterion matching instruments by name; `*` and `?` act as wildcards.
#[verifier::external_body]
pub(crate) fn instrument_criterion(name: &str) -> (r: Instrument) {
    Instrument::new().name(name.to_owned())
}

/// Relies on opentelemetry_sdk `Stream::new().aggregation` with
/// `Aggregation::ExplicitBucketHistogram`: a histogram stream whose bucket
/// upper bounds are the given values.
#[verifier::external_body]
pub(crate) fn histogram_stream(bounds: &Vec<u32>) -> (r: Stream) {
    Stream::new().aggregation(
        Aggregation::ExplicitBucketHistogram {
            boundaries: bounds.iter().map(|&b| b.into()).collect(),
            record_min_max: true,
        },
    )
}

/// Relies on opentelemetry_prometheus `exporter` and opentelemetry_sdk
/// `MeterProviderBuilder`: a provider that exports through the given
/// registry, with the two histogram bucket views applied.
#[verifier::external_body]
pub(crate) fn provider_with_prometheus(
    res: Resource,
    registry: &prometheus::Registry,
    duration: (Instrument, Stream),
    sizes: (Instrument, Stream),
) -> (r: Result<SdkMeterProvider, String>) {
    let exporter = match opentelemetry_prometheus::exporter().with_registry(registry.clone()).build() {
        Ok(e) => e,
        Err(e) => return Err(e.to_string()),
    };
    let v1 = match new_view(duration.0, duration.1) {
        Ok(v) => v,
        Err(e) => return Err(e.to_string()),
    };
    let v2 = match new_view(sizes.0, sizes.1) {
        Ok(v) => v,
        Err(e) => return Err(e.to_string()),
    };
    Ok(SdkMeterProvider::builder().with_resource(res).with_reader(exporter).with_view(v1).with_view(
        v2,
    ).build())
}

/// Relies on opentelemetry_sdk `MeterProviderBuilder::with_reader` with a
/// periodic reader: a provider that pushes through the given reader, with
/// the two histogram bucket views applied.
#[verifier::external_body]
pub(crate) fn provider_with_reader(
    res: Resource,
    reader: PeriodicReader,
    duration: (Instrument, Stream),
    sizes: (Instrument, Stream),
) -> (r: Result<SdkMeterProvider, String>) {
    let v1 = match new_view(duration.0, duration.1) {
        Ok(v) => v,
        Err(e) => return Err(e.to_string()),
    };
    let v2 = match new_view(sizes.0, sizes.1) {
        Ok(v) => v,
        Err(e) => return Err(e.to_string()),
    };
    Ok(SdkMeterProvider::builder().with_resource(res).with_reader(reader).with_view(v1).with_view(
        v2,
    ).build())
}

/// Relies on opentelemetry_sdk `MeterProviderBuilder`: a provider with no
/// reader attached, for a layer whose exporter the embedding constructs
/// and attaches itself.
#[verifier::external_body]
pub(crate) fn provider_without_reader(res: Resource) -> (r: SdkMeterProvider) {
    SdkMeterProvider::builder().with_resource(res).build()
}

/// Relies on opentelemetry `global::set_meter_provider`: installs the
/// provider as the process-wide default.
#[verifier::external_body]
pub(crate) fn install_global_provider(p: &SdkMeterProvider) {
    opentelemetry::global::set_meter_provider(p.clone());
}

/// Relies on opentelemetry `MeterProvider::versioned_meter`: the meter
/// this library records through.
#[verifier::external_body]
pub(crate) fn make_meter(p: &SdkMeterProvider) -> (r: Meter) {
    p.versioned_meter(
        "axum_otel_metrics",
        Some("0.1.0"),
        Some("https://opentelemetry.io/schema/1.0.0"),
        None,
    )
}

/// Relies on prometheus `Registry::gather` and `TextEncoder::encode`: the
/// registry's current state in the text exposition format. The result
/// depends on every observation recorded so far.
#[verifier::external_body]
pub(crate) fn gather_and_encode(r: &prometheus::Registry) -> (res: Result<String, String>) {
    let mut buffer: Vec<u8> = Vec::new();
    let encoder = prometheus::TextEncoder::new();
    if let Err(e) = prometheus::Encoder::encode(&encoder, &r.gather(), &mut buffer) {
        return Err(e.to_string());
    }
    match String::from_utf8(buffer) {
        Ok(s) => Ok(s),
        Err(e) => Err(e.to_string()),
    }
}

/// Relies on prometheus `default_registry`: the process-wide default
/// registry.
#[verifier::external_body]
pub(crate) fn default_registry_ref() -> (r: &'static prometheus::Registry) {
    prometheus::default_registry()
}

/// Relies on `std::time::Instant::now`: the current monotonic instant.
/// The result depends on the clock.
#[verifier::external_body]
pub(crate) fn instant_now() -> (r: Instant) {
    Instant::now()
}

/// Relies on `std::time::Instant::elapsed`: whole milliseconds since the
/// instant, saturating at the largest value. The result depends on the
/// clock.
#[verifier::external_body]
pub(crate) fn elapsed_millis(start: &Instant) -> (r: u64) {
    match u64::try_from(start.elapsed().as_millis()) {
        Ok(v) => v,
        Err(_) => u64::MAX,
    }
}

} // verus!
