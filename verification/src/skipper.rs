//! A predicate on request paths deciding which requests are excluded from
//! aggregate recording. The in-flight gauge is never subject to it.

use vstd::prelude::*;
use vstd::string::StringSliceAdditionalSpecFns;
use vstd::utf8::encode_utf8;
use crate::text::{seq_starts_with, str_starts_with};

verus! {

/// Decides whether a request path is excluded from metric recording.
///
/// Two rule shapes are provided: a list of path prefixes, and a fixed
/// verdict that holds for every path.
pub enum PathSkipper {
    /// Skip exactly the paths that start with one of these prefixes.
    Prefixes { prefixes: Vec<String> },
    /// Skip every path, or no path at all.
    Fixed { skip: bool },
}

impl PathSkipper {
    /// Whether a path with the given UTF-8 bytes is skipped.
    pub open spec fn spec_skips(&self, path: Seq<u8>) -> bool {
        match self {
            PathSkipper::Prefixes { prefixes } => exists|i: int|
                0 <= i < prefixes@.len() && seq_starts_with(
                    path,
                    encode_utf8(#[trigger] prefixes@[i]@),
                ),
            PathSkipper::Fixed { skip } => *skip,
        }
    }

    /// A skipper that skips requests whose path starts with any of the
    /// given prefixes.
    pub fn new(prefixes: Vec<String>) -> (r: Self)
        ensures
            r == (PathSkipper::Prefixes { prefixes }),
    {
        PathSkipper::Prefixes { prefixes }
    }

    /// A skipper with a fixed verdict for every path: the degenerate form
    /// of a predicate that ignores its argument.
    pub fn new_with_fn(skip: bool) -> (r: Self)
        ensures
            r == (PathSkipper::Fixed { skip }),
    {
        PathSkipper::Fixed { skip }
    }

    /// Evaluates the predicate on a path.
    pub fn evaluate(&self, path: &str) -> (r: bool)
        ensures
            r == self.spec_skips(path.spec_bytes()),
    {
        match self {
            PathSkipper::Prefixes { prefixes } => any_prefix_matches(prefixes, path),
            PathSkipper::Fixed { skip } => *skip,
        }
    }
}

fn any_prefix_matches(prefixes: &Vec<String>, path: &str) -> (r: bool)
    ensures
        r == exists|i: int|
            0 <= i < prefixes@.len() && seq_starts_with(
                path.spec_bytes(),
                encode_utf8(#[trigger] prefixes@[i]@),
            ),
{
    let mut i: usize = 0;
    while i < prefixes.len()
        invariant
            0 <= i <= prefixes@.len(),
            forall|j: int|
                0 <= j < i ==> !seq_starts_with(
                    path.spec_bytes(),
                    encode_utf8(#[trigger] prefixes@[j]@),
                ),
        decreases prefixes@.len() - i,
    {
        if str_starts_with(path, prefixes[i].as_str()) {
            return true;
        }
        i = i + 1;
    }
    false
}

impl Default for PathSkipper {
    /// The default skipper: it skips any path that starts with `/metrics`
    /// or `/favicon.ico`, so that the scrape endpoint and browser icon
    /// probes do not instrument themselves.
    fn default() -> (r: Self)
        ensures
            r matches PathSkipper::Prefixes { prefixes } && prefixes@.len() == 2
                && prefixes@[0]@ == "/metrics"@ && prefixes@[1]@ == "/favicon.ico"@,
    {
        let prefixes = vec!["/metrics".to_owned(), "/favicon.ico".to_owned()];
        PathSkipper::Prefixes { prefixes }
    }
}

/// The default skipper skips exactly the paths that start with `/metrics`
/// or `/favicon.ico` (prefix match, so `/metricsx` is skipped too), and
/// accepts every other path.
pub proof fn lemma_default_skipper_exact(s: PathSkipper, path: Seq<u8>)
    requires
        s matches PathSkipper::Prefixes { prefixes } && prefixes@.len() == 2
            && prefixes@[0]@ == "/metrics"@ && prefixes@[1]@ == "/favicon.ico"@,
    ensures
        s.spec_skips(path) <==> (seq_starts_with(path, encode_utf8("/metrics"@))
            || seq_starts_with(path, encode_utf8("/favicon.ico"@))),
{
    let prefixes = s->Prefixes_prefixes;
    if seq_starts_with(path, encode_utf8("/metrics"@)) {
        assert(seq_starts_with(path, encode_utf8(prefixes@[0]@)));
    }
    if seq_starts_with(path, encode_utf8("/favicon.ico"@)) {
        assert(seq_starts_with(path, encode_utf8(prefixes@[1]@)));
    }
}

} // verus!
