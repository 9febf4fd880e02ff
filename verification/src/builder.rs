//! The builder that configures and constructs the metrics layer: service
//! identity, metric namespace prefix, fixed labels, scrape path, skip
//! predicate, TLS flag and exporter mode. Building assembles the resource
//! identity, creates the registry, provider and instruments, and installs
//! the provider process-wide.

use vstd::prelude::*;
use vstd::string::StringExecFns;
use vstd::string::StringSliceAdditionalSpecFns;
use vstd::utf8::encode_utf8;
use opentelemetry::metrics::Meter;
use opentelemetry_sdk::metrics::PeriodicReader;
use crate::backend::detect_resource;
use crate::backend::histogram_stream;
use crate::backend::install_global_provider;
use crate::backend::instrument_criterion;
use crate::backend::make_counter;
use crate::backend::make_histogram;
use crate::backend::make_meter;
use crate::backend::make_registry;
use crate::backend::make_up_down_counter;
use crate::backend::provider_with_prometheus;
use crate::backend::provider_with_reader;
use crate::backend::provider_without_reader;
use crate::backend::resource_with_labels;
use crate::buckets::duration_boundaries_ms;
use crate::buckets::size_boundaries_bytes;
use crate::layer::HttpMetricsLayer;
use crate::layer::Metric;
use crate::layer::MetricState;
use crate::request::str_eq;
use crate::skipper::PathSkipper;
use crate::text::seq_starts_with;
use crate::text::str_starts_with;

verus! {

/// Configuration of a metrics layer. Built once per process; the layer it
/// produces is immutable thereafter.
pub struct HttpMetricsLayerBuilder {
    /// The reported service name, qualified with the namespace when one
    /// is detected.
    pub service_name: Option<String>,
    /// The reported service version.
    pub service_version: Option<String>,
    /// The metric name prefix of the local registry.
    pub prefix: Option<String>,
    /// Where the scrape endpoint is mounted.
    pub path: String,
    /// Fixed labels attached to the local registry.
    pub labels: Option<Vec<(String, String)>>,
    /// Paths excluded from completion recording.
    pub skipper: PathSkipper,
    /// Whether the server itself terminates TLS.
    pub is_tls: bool,
    /// The exporter mode: `otlp` selects push mode; anything else scrapes
    /// through a local registry.
    pub exporter: Option<String>,
}

impl Default for HttpMetricsLayerBuilder {
    /// The default configuration: scrape at `/metrics` through a local
    /// registry, skip the default paths, no identity, no prefix, no TLS.
    fn default() -> (r: Self)
        ensures
            r.service_name is None,
            r.service_version is None,
            r.prefix is None,
            r.path@ == "/metrics"@,
            r.labels is None,
            r.skipper matches PathSkipper::Prefixes { prefixes } && prefixes@.len() == 2
                && prefixes@[0]@ == "/metrics"@ && prefixes@[1]@ == "/favicon.ico"@,
            !r.is_tls,
            r.exporter matches Some(e) && e@ == "prometheus"@,
    {
        HttpMetricsLayerBuilder {
            service_name: None,
            service_version: None,
            prefix: None,
            path: "/metrics".to_owned(),
            labels: None,
            skipper: PathSkipper::default(),
            is_tls: false,
            exporter: Some("prometheus".to_owned()),
        }
    }
}

/// Push mode is selected exactly by the exporter value `otlp`.
pub open spec fn spec_is_otlp(exporter: Option<String>) -> bool {
    exporter matches Some(e) && e@ == "otlp"@
}

/// The qualified service name: `name.namespace` when a namespace is known
/// and the name does not already start with `namespace.`; the name alone
/// otherwise.
pub open spec fn spec_qualified_name(name: Seq<char>, ns: Seq<char>) -> Seq<char> {
    if ns.len() > 0 && !seq_starts_with(encode_utf8(name), encode_utf8(ns + "."@)) {
        name + "."@ + ns
    } else {
        name
    }
}

/// Qualifies a service name with the namespace.
pub fn qualified_name(name: String, ns: &String) -> (r: String)
    ensures
        r@ == spec_qualified_name(name@, ns@),
{
    if !ns.as_str().is_empty() {
        let prefix = ns.clone().concat(".");
        if !str_starts_with(name.as_str(), prefix.as_str()) {
            let r = name.concat(".").concat(ns.as_str());
            proof {
                assert(r@ =~= name@ + "."@ + ns@);
            }
            return r;
        }
    }
    name
}

/// The service identity labels: the namespace and instance address when
/// the environment provides them (an empty value counts as absent), the
/// qualified service name, and the service version.
pub open spec fn spec_identity_labels(
    name: Option<String>,
    version: Option<String>,
    ns: Seq<char>,
    ip: Seq<char>,
) -> Seq<(Seq<char>, Seq<char>)> {
    let s0 = Seq::<(Seq<char>, Seq<char>)>::empty();
    let s1 = if ns.len() > 0 {
        s0.push(("service.namespace"@, ns))
    } else {
        s0
    };
    let s2 = if ip.len() > 0 {
        s1.push(("service.instance"@, ip))
    } else {
        s1
    };
    let s3 = match name {
        Some(n) => s2.push(("service.name"@, spec_qualified_name(n@, ns))),
        None => s2,
    };
    match version {
        Some(v) => s3.push(("service.version"@, v@)),
        None => s3,
    }
}

/// Assembles the identity labels from the configured name and version and
/// the environment-provided namespace and instance address.
pub fn identity_labels(
    name: &Option<String>,
    version: &Option<String>,
    ns: &String,
    ip: &String,
) -> (r: Vec<(String, String)>)
    ensures
        r@.map_values(|p: (String, String)| (p.0@, p.1@)) == spec_identity_labels(
            *name,
            *version,
            ns@,
            ip@,
        ),
{
    let mut out: Vec<(String, String)> = Vec::new();
    if !ns.as_str().is_empty() {
        out.push(("service.namespace".to_owned(), ns.clone()));
    }
    if !ip.as_str().is_empty() {
        out.push(("service.instance".to_owned(), ip.clone()));
    }
    match name {
        Some(n) => {
            out.push(("service.name".to_owned(), qualified_name(n.clone(), ns)));
        },
        None => {},
    }
    match version {
        Some(v) => {
            out.push(("service.version".to_owned(), v.clone()));
        },
        None => {},
    }
    proof {
        assert(out@.map_values(|p: (String, String)| (p.0@, p.1@)) =~= spec_identity_labels(
            *name,
            *version,
            ns@,
            ip@,
        ));
    }
    out
}

fn make_instruments(meter: &Meter) -> (r: Result<Metric, String>) {
    let requests_total = match make_counter(
        meter,
        "requests",
        "How many HTTP requests processed, partitioned by status code and HTTP method.",
    ) {
        Ok(c) => c,
        Err(e) => {
            return Err(e);
        },
    };
    let req_duration = match make_histogram(
        meter,
        "http.server.request.duration",
        "The HTTP request latencies in milliseconds.",
        "ms",
    ) {
        Ok(h) => h,
        Err(e) => {
            return Err(e);
        },
    };
    let req_size = match make_histogram(
        meter,
        "http.server.request.size",
        "The HTTP request sizes in bytes.",
        "By",
    ) {
        Ok(h) => h,
        Err(e) => {
            return Err(e);
        },
    };
    let res_size = match make_histogram(
        meter,
        "http.server.response.size",
        "The HTTP response sizes in bytes.",
        "By",
    ) {
        Ok(h) => h,
        Err(e) => {
            return Err(e);
        },
    };
    let req_active = match make_up_down_counter(
        meter,
        "http.server.active_requests",
        "The number of active HTTP requests.",
    ) {
        Ok(c) => c,
        Err(e) => {
            return Err(e);
        },
    };
    Ok(Metric { requests_total, req_duration, req_size, res_size, req_active })
}

impl HttpMetricsLayerBuilder {
    /// A builder with the default configuration.
    pub fn new() -> (r: Self)
        ensures
            r.service_name is None,
            r.service_version is None,
            r.prefix is None,
            r.path@ == "/metrics"@,
            r.labels is None,
            r.skipper matches PathSkipper::Prefixes { prefixes } && prefixes@.len() == 2
                && prefixes@[0]@ == "/metrics"@ && prefixes@[1]@ == "/favicon.ico"@,
            !r.is_tls,
            r.exporter matches Some(e) && e@ == "prometheus"@,
    {
        HttpMetricsLayerBuilder::default()
    }

    /// Sets the reported service name.
    pub fn with_service_name(self, service_name: String) -> (r: Self)
        ensures
            r == (HttpMetricsLayerBuilder { service_name: Some(service_name), ..self }),
    {
        HttpMetricsLayerBuilder { service_name: Some(service_name), ..self }
    }

    /// Sets the reported service version.
    pub fn with_service_version(self, service_version: String) -> (r: Self)
        ensures
            r == (HttpMetricsLayerBuilder { service_version: Some(service_version), ..self }),
    {
        HttpMetricsLayerBuilder { service_version: Some(service_version), ..self }
    }

    /// Sets the metric name prefix of the local registry.
    pub fn with_prefix(self, prefix: String) -> (r: Self)
        ensures
            r == (HttpMetricsLayerBuilder { prefix: Some(prefix), ..self }),
    {
        HttpMetricsLayerBuilder { prefix: Some(prefix), ..self }
    }

    /// Sets the scrape endpoint's path.
    pub fn with_path(self, path: String) -> (r: Self)
        ensures
            r == (HttpMetricsLayerBuilder { path, ..self }),
    {
        HttpMetricsLayerBuilder { path, ..self }
    }

    /// Sets the fixed labels of the local registry.
    pub fn with_labels(self, labels: Vec<(String, String)>) -> (r: Self)
        ensures
            r == (HttpMetricsLayerBuilder { labels: Some(labels), ..self }),
    {
        HttpMetricsLayerBuilder { labels: Some(labels), ..self }
    }

    /// Sets the skip predicate.
    pub fn with_skipper(self, skipper: PathSkipper) -> (r: Self)
        ensures
            r == (HttpMetricsLayerBuilder { skipper, ..self }),
    {
        HttpMetricsLayerBuilder { skipper, ..self }
    }

    /// Selects the exporter mode: `otlp` for push, anything else for a
    /// local scraped registry.
    pub fn with_exporter(self, exporter: String) -> (r: Self)
        ensures
            r == (HttpMetricsLayerBuilder { exporter: Some(exporter), ..self }),
    {
        HttpMetricsLayerBuilder { exporter: Some(exporter), ..self }
    }

    /// Builds the layer with the given environment-derived identity: the
    /// namespace and instance address, empty when unknown. A local
    /// registry exists exactly in pull mode; in push mode the periodic
    /// reader is attached by the embedding through `build_with_reader`.
    pub fn build_with_identity(self, namespace: String, instance_ip: String) -> (r: Result<
        HttpMetricsLayer,
        String,
    >)
        ensures
            r matches Ok(l) ==> l.state.skipper == self.skipper && l.state.is_tls == self.is_tls
                && l.path == self.path && ((l.state.registry is Some) <==> !spec_is_otlp(
                self.exporter,
            )),
    {
        let HttpMetricsLayerBuilder {
            service_name,
            service_version,
            prefix,
            path,
            labels,
            skipper,
            is_tls,
            exporter,
        } = self;
        let is_otlp = match &exporter {
            Some(e) => str_eq(e.as_str(), "otlp"),
            None => false,
        };
        let kvs = identity_labels(&service_name, &service_version, &namespace, &instance_ip);
        let base = detect_resource();
        let res = if kvs.len() > 0 {
            resource_with_labels(base, kvs)
        } else {
            base
        };
        let (registry, provider) = if is_otlp {
            (None, provider_without_reader(res))
        } else {
            let reg = match make_registry(prefix, labels) {
                Ok(r) => r,
                Err(e) => {
                    return Err(e);
                },
            };
            let duration_view = (
                instrument_criterion("http.server.request.duration"),
                histogram_stream(&duration_boundaries_ms()),
            );
            let sizes_view = (
                instrument_criterion("http.server.*.size"),
                histogram_stream(&size_boundaries_bytes()),
            );
            let prov = match provider_with_prometheus(res, &reg, duration_view, sizes_view) {
                Ok(p) => p,
                Err(e) => {
                    return Err(e);
                },
            };
            (Some(reg), prov)
        };
        install_global_provider(&provider);
        let meter = make_meter(&provider);
        let metric = match make_instruments(&meter) {
            Ok(m) => m,
            Err(e) => {
                return Err(e);
            },
        };
        Ok(HttpMetricsLayer { state: MetricState { registry, metric, skipper, is_tls }, path })
    }

    /// Builds the layer with no environment-derived identity.
    pub fn build(self) -> (r: Result<HttpMetricsLayer, String>)
        ensures
            r matches Ok(l) ==> l.state.skipper == self.skipper && l.state.is_tls == self.is_tls
                && l.path == self.path && ((l.state.registry is Some) <==> !spec_is_otlp(
                self.exporter,
            )),
    {
        self.build_with_identity(String::new(), String::new())
    }

    /// Builds the layer in push mode around an externally constructed
    /// periodic reader, which the provider then owns. No local registry
    /// exists; the scrape endpoint renders the placeholder.
    pub fn build_with_reader(self, reader: PeriodicReader, namespace: String, instance_ip: String)
        -> (r: Result<HttpMetricsLayer, String>)
        ensures
            r matches Ok(l) ==> l.state.skipper == self.skipper && l.state.is_tls == self.is_tls
                && l.path == self.path && l.state.registry is None,
    {
        let HttpMetricsLayerBuilder {
            service_name,
            service_version,
            prefix: _,
            path,
            labels: _,
            skipper,
            is_tls,
            exporter: _,
        } = self;
        let kvs = identity_labels(&service_name, &service_version, &namespace, &instance_ip);
        let base = detect_resource();
        let res = if kvs.len() > 0 {
            resource_with_labels(base, kvs)
        } else {
            base
        };
        let duration_view = (
            instrument_criterion("http.server.request.duration"),
            histogram_stream(&duration_boundaries_ms()),
        );
        let sizes_view = (
            instrument_criterion("http.server.*.size"),
            histogram_stream(&size_boundaries_bytes()),
        );
        let provider = match provider_with_reader(res, reader, duration_view, sizes_view) {
            Ok(p) => p,
            Err(e) => {
                return Err(e);
            },
        };
        install_global_provider(&provider);
        let meter = make_meter(&provider);
        let metric = match make_instruments(&meter) {
            Ok(m) => m,
            Err(e) => {
                return Err(e);
            },
        };
        Ok(HttpMetricsLayer { state: MetricState { registry: None, metric, skipper, is_tls }, path })
    }
}

} // verus!
