//! The metrics layer itself: the instrument set, the shared state, and
//! the request lifecycle — intercept, complete or abandon — together with
//! the scrape rendering.

use vstd::prelude::*;
use vstd::string::StringExecFns;
use vstd::string::StringSliceAdditionalSpecFns;
use vstd::utf8::encode_utf8;
use opentelemetry::metrics::Counter;
use opentelemetry::metrics::Histogram;
use opentelemetry::metrics::UpDownCounter;
use std::time::Instant;
use crate::backend::counter_add;
use crate::backend::default_registry_ref;
use crate::backend::elapsed_millis;
use crate::backend::gather_and_encode;
use crate::backend::histogram_record;
use crate::backend::instant_now;
use crate::backend::updown_add;
use crate::labels::active_label_pairs;
use crate::labels::completion_label_pairs;
use crate::labels::ActiveLabels;
use crate::labels::CompletionLabels;
use crate::request::approximate_request_size_clamped;
use crate::request::host_label;
use crate::request::resolve_scheme;
use crate::request::route_label;
use crate::request::spec_host_label;
use crate::request::spec_request_size;
use crate::request::spec_resolve_scheme;
use crate::request::spec_route_label;
use crate::request::RequestFacts;
use crate::skipper::PathSkipper;
use crate::text::spec_udec;
use crate::text::u16_to_dec;

verus! {

/// The five instruments the middleware records to.
pub struct Metric {
    /// Monotonic count of completed requests, by completion labels.
    pub requests_total: Counter<u64>,
    /// Request latency histogram, in milliseconds.
    pub req_duration: Histogram<u64>,
    /// Request size histogram, in bytes.
    pub req_size: Histogram<u64>,
    /// Response size histogram, in bytes.
    pub res_size: Histogram<u64>,
    /// In-flight request gauge, by method and scheme.
    pub req_active: UpDownCounter<i64>,
}

/// The state shared by the middleware and the scrape endpoint: the
/// instruments, the registry they export through (absent in push mode),
/// the skip predicate, and the TLS flag that decides the scheme label.
pub struct MetricState {
    /// The registry the scrape endpoint gathers from; `None` in push mode.
    pub registry: Option<prometheus::Registry>,
    /// The instruments.
    pub metric: Metric,
    /// Paths excluded from completion recording.
    pub skipper: PathSkipper,
    /// Whether the server itself terminates TLS.
    pub is_tls: bool,
}

/// The middleware service: the shared state around an inner handler.
pub struct HttpMetrics<S> {
    pub state: MetricState,
    /// The wrapped inner handler.
    pub service: S,
}

impl<S> HttpMetrics<S> {
    /// Wraps an inner handler with the given shared state.
    pub fn new(state: MetricState, service: S) -> (r: Self)
        ensures
            r == (HttpMetrics { state, service }),
    {
        HttpMetrics { state, service }
    }
}

/// The built layer: the shared state plus the scrape endpoint's path.
pub struct HttpMetricsLayer {
    pub state: MetricState,
    /// Where the scrape endpoint is mounted.
    pub path: String,
}

/// What one request carries from interception to completion: the label
/// values resolved at arrival, the computed request size, and the arrival
/// instant.
pub struct RequestContext {
    pub start: Instant,
    pub method: String,
    pub route: String,
    pub scheme: String,
    pub host: String,
    pub req_size: u64,
}

/// One metric recording planned for a completed request.
pub struct CompletionRecord {
    pub labels: CompletionLabels,
    pub duration_ms: u64,
    pub request_size: u64,
    pub response_size: u64,
}

/// What completion does: the unconditional in-flight decrement, and the
/// completion recordings unless the skipper excluded the route.
pub struct CompletionPlan {
    pub dec: ActiveLabels,
    pub record: Option<CompletionRecord>,
}

/// Plans the completion of a request: the decrement always carries the
/// labels of the increment; the recordings exist exactly when the skipper
/// accepts the resolved route, and then carry the post-call label shape
/// and the measured values unchanged.
pub fn plan_completion(
    ctx: &RequestContext,
    skipper: &PathSkipper,
    status: u16,
    response_size: u64,
    elapsed_ms: u64,
) -> (p: CompletionPlan)
    ensures
        p.dec.method@ == ctx.method@ && p.dec.scheme@ == ctx.scheme@,
        (p.record is Some) <==> !skipper.spec_skips(encode_utf8(ctx.route@)),
        p.record matches Some(rec) ==> rec.labels.method@ == ctx.method@ && rec.labels.route@
            == ctx.route@ && rec.labels.status@ == spec_udec(status as int) && rec.labels.scheme@
            == ctx.scheme@ && rec.labels.host@ == ctx.host@ && rec.duration_ms == elapsed_ms
            && rec.request_size == ctx.req_size && rec.response_size == response_size,
{
    let dec = ActiveLabels { method: ctx.method.clone(), scheme: ctx.scheme.clone() };
    if skipper.evaluate(ctx.route.as_str()) {
        CompletionPlan { dec, record: None }
    } else {
        let labels = CompletionLabels {
            method: ctx.method.clone(),
            route: ctx.route.clone(),
            status: u16_to_dec(status),
            scheme: ctx.scheme.clone(),
            host: ctx.host.clone(),
        };
        CompletionPlan {
            dec,
            record: Some(
                CompletionRecord {
                    labels,
                    duration_ms: elapsed_ms,
                    request_size: ctx.req_size,
                    response_size,
                },
            ),
        }
    }
}

impl MetricState {
    /// Intercepts an arriving request: resolves the scheme by precedence,
    /// increments the in-flight gauge with the method and scheme labels —
    /// unconditionally, before any skip decision — and captures the
    /// context that completion will consume.
    pub fn on_request(&self, facts: &RequestFacts) -> (ctx: RequestContext)
        ensures
            ctx.method@ == facts.method@,
            ctx.scheme@ == spec_resolve_scheme(self.is_tls, facts.headers@),
            ctx.route@ == spec_route_label(*facts),
            ctx.host@ == spec_host_label(facts.headers@),
            spec_request_size(*facts) <= usize::MAX ==> ctx.req_size as int == spec_request_size(
                *facts,
            ),
    {
        let scheme = resolve_scheme(self.is_tls, &facts.headers);
        let inc = ActiveLabels { method: facts.method.clone(), scheme: scheme.clone() };
        let pairs = active_label_pairs(&inc);
        updown_add(&self.metric.req_active, 1, &pairs);
        let size = approximate_request_size_clamped(facts);
        RequestContext {
            start: instant_now(),
            method: facts.method.clone(),
            route: route_label(facts),
            scheme,
            host: host_label(&facts.headers),
            req_size: size as u64,
        }
    }

    fn apply_plan(&self, p: &CompletionPlan) {
        let dec_pairs = active_label_pairs(&p.dec);
        updown_add(&self.metric.req_active, -1, &dec_pairs);
        match &p.record {
            Some(rec) => {
                let pairs = completion_label_pairs(&rec.labels);
                counter_add(&self.metric.requests_total, 1, &pairs);
                histogram_record(&self.metric.req_size, rec.request_size, &pairs);
                histogram_record(&self.metric.res_size, rec.response_size, &pairs);
                histogram_record(&self.metric.req_duration, rec.duration_ms, &pairs);
            },
            None => {},
        }
    }

    /// Completes a request whose response is ready: decrements the
    /// in-flight gauge with the labels of the increment, applies the
    /// skipper to the resolved route, and — unless skipped — records one
    /// count and the duration, request size and response size, all under
    /// the post-call labels. The returned plan says exactly what was
    /// recorded; the duration value comes from the clock.
    pub fn on_response(&self, ctx: RequestContext, status: u16, response_size: u64) -> (p:
        CompletionPlan)
        ensures
            p.dec.method@ == ctx.method@ && p.dec.scheme@ == ctx.scheme@,
            (p.record is Some) <==> !self.skipper.spec_skips(encode_utf8(ctx.route@)),
            p.record matches Some(rec) ==> rec.labels.method@ == ctx.method@ && rec.labels.route@
                == ctx.route@ && rec.labels.status@ == spec_udec(status as int)
                && rec.labels.scheme@ == ctx.scheme@ && rec.labels.host@ == ctx.host@
                && rec.request_size == ctx.req_size && rec.response_size == response_size,
    {
        let elapsed = elapsed_millis(&ctx.start);
        let p = plan_completion(&ctx, &self.skipper, status, response_size, elapsed);
        self.apply_plan(&p);
        p
    }

    /// Abandons a request whose inner handler failed or was dropped before
    /// a response existed: the in-flight decrement still happens, with the
    /// labels of the increment; nothing else is recorded.
    pub fn on_abandon(&self, ctx: RequestContext) -> (dec: ActiveLabels)
        ensures
            dec.method@ == ctx.method@ && dec.scheme@ == ctx.scheme@,
    {
        let dec = ActiveLabels { method: ctx.method, scheme: ctx.scheme };
        let pairs = active_label_pairs(&dec);
        updown_add(&self.metric.req_active, -1, &pairs);
        dec
    }

    /// Renders every instrument's current state in the text exposition
    /// format: the layer's own registry followed by the process default
    /// registry. Without a local registry (push mode) the result is a
    /// fixed placeholder — no data, not an error. An encoding failure is
    /// an error, never a truncated payload.
    pub fn render_metrics(&self) -> (r: Result<String, String>)
        ensures
            self.registry is None ==> (r matches Ok(s) && s@ == "#no prometheus registry"@),
    {
        match &self.registry {
            Some(reg) => {
                let own = match gather_and_encode(reg) {
                    Ok(s) => s,
                    Err(e) => {
                        return Err(e);
                    },
                };
                let def = match gather_and_encode(default_registry_ref()) {
                    Ok(s) => s,
                    Err(e) => {
                        return Err(e);
                    },
                };
                Ok(own.concat(def.as_str()))
            },
            None => Ok("#no prometheus registry".to_owned()),
        }
    }
}

} // verus!
