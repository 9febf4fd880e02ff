//! Label sets attached to metric observations. Two shapes exist: the
//! pre-call shape used only for the in-flight gauge, and the post-call
//! shape used for all completion metrics.

use vstd::prelude::*;

verus! {

/// Labels of the in-flight gauge: method and scheme only, known at
/// request arrival.
pub struct ActiveLabels {
    pub method: String,
    pub scheme: String,
}

/// Labels of the completion metrics: method, matched route, status code,
/// scheme and server host, known once the response is ready.
pub struct CompletionLabels {
    pub method: String,
    pub route: String,
    pub status: String,
    pub scheme: String,
    pub host: String,
}

impl CompletionLabels {
    /// The label values as a tuple of sequences, for comparison in
    /// contracts.
    pub open spec fn view_tuple(&self) -> (Seq<char>, Seq<char>, Seq<char>, Seq<char>, Seq<char>) {
        (self.method@, self.route@, self.status@, self.scheme@, self.host@)
    }
}

/// The attribute name/value pairs recorded with the in-flight gauge.
pub fn active_label_pairs(l: &ActiveLabels) -> (r: Vec<(String, String)>)
    ensures
        r@.len() == 2,
        r@[0].0@ == "http.request.method"@ && r@[0].1@ == l.method@,
        r@[1].0@ == "url.scheme"@ && r@[1].1@ == l.scheme@,
{
    vec![
        ("http.request.method".to_owned(), l.method.clone()),
        ("url.scheme".to_owned(), l.scheme.clone()),
    ]
}

/// The attribute name/value pairs recorded with every completion metric.
pub fn completion_label_pairs(l: &CompletionLabels) -> (r: Vec<(String, String)>)
    ensures
        r@.len() == 5,
        r@[0].0@ == "http.request.method"@ && r@[0].1@ == l.method@,
        r@[1].0@ == "http.route"@ && r@[1].1@ == l.route@,
        r@[2].0@ == "http.response.status_code"@ && r@[2].1@ == l.status@,
        r@[3].0@ == "url.scheme"@ && r@[3].1@ == l.scheme@,
        r@[4].0@ == "server.address"@ && r@[4].1@ == l.host@,
{
    vec![
        ("http.request.method".to_owned(), l.method.clone()),
        ("http.route".to_owned(), l.route.clone()),
        ("http.response.status_code".to_owned(), l.status.clone()),
        ("url.scheme".to_owned(), l.scheme.clone()),
        ("server.address".to_owned(), l.host.clone()),
    ]
}

} // verus!
