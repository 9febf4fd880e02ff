//! HTTP server request instrumentation: wraps a request/response cycle,
//! derives semantic labels, accounts for in-flight requests, records
//! per-request metrics, and renders the aggregated state on demand.

pub mod backend;
pub mod buckets;
pub mod builder;
pub mod labels;
pub mod layer;
pub mod model;
pub mod request;
pub mod skipper;
pub mod text;
