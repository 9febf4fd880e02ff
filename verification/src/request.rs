//! The facts of one inbound request that the instrumentation reads: path,
//! method, headers, host, and the matched route. The transport adapter
//! fills this in from the raw request; everything derived from it here is
//! exactly specified.

use vstd::prelude::*;
use vstd::string::StringSliceAdditionalSpecFns;
use vstd::utf8::encode_utf8;
use vstd::utf8::encode_utf8_decode_utf8;
use crate::text::spec_parse_usize;
use crate::text::parse_usize;

verus! {

/// One request header: its lowercase name (as the transport normalizes
/// it), its value as text when the value is readable as a string, and the
/// raw byte length of the value.
pub struct HeaderFact {
    pub name: String,
    pub value: Option<String>,
    pub value_len: usize,
}

/// What the instrumentation reads from an inbound request.
pub struct RequestFacts {
    /// The URI path.
    pub path: String,
    /// The request method token.
    pub method: String,
    /// All headers, in order.
    pub headers: Vec<HeaderFact>,
    /// The byte length of the URI's host part, or 0 when the URI has none.
    pub uri_host_len: usize,
    /// The route template the router matched, when it exposes one.
    pub matched_route: Option<String>,
}

/// Byte-slice equality.
pub fn bytes_eq(a: &[u8], b: &[u8]) -> (r: bool)
    ensures
        r == (a@ == b@),
{
    if a.len() != b.len() {
        proof {
            assert(a@.len() != b@.len());
        }
        return false;
    }
    let mut i: usize = 0;
    while i < a.len()
        invariant
            0 <= i <= a@.len(),
            a@.len() == b@.len(),
            forall|j: int| 0 <= j < i ==> a@[j] == b@[j],
        decreases a@.len() - i,
    {
        if a[i] != b[i] {
            return false;
        }
        i = i + 1;
    }
    proof {
        assert(a@ =~= b@);
    }
    true
}

/// String equality, stated over the character views.
pub fn str_eq(a: &str, b: &str) -> (r: bool)
    ensures
        r == (a@ == b@),
{
    let r = bytes_eq(a.as_bytes(), b.as_bytes());
    proof {
        if a.spec_bytes() == b.spec_bytes() {
            encode_utf8_decode_utf8(a@);
            encode_utf8_decode_utf8(b@);
        }
    }
    r
}

/// The first header with the given name, if any.
pub open spec fn spec_find_header(headers: Seq<HeaderFact>, name: Seq<char>) -> Option<HeaderFact>
    decreases headers.len(),
{
    if headers.len() == 0 {
        None
    } else if headers[0].name@ == name {
        Some(headers[0])
    } else {
        spec_find_header(headers.drop_first(), name)
    }
}

proof fn lemma_find_header_skip(headers: Seq<HeaderFact>, name: Seq<char>, i: int)
    requires
        0 <= i <= headers.len(),
        forall|j: int| 0 <= j < i ==> (#[trigger] headers[j]).name@ != name,
    ensures
        spec_find_header(headers, name) == spec_find_header(headers.skip(i), name),
    decreases i,
{
    if i > 0 {
        let rest = headers.drop_first();
        assert(forall|j: int| 0 <= j < i - 1 ==> #[trigger] rest[j] == headers[j + 1]);
        lemma_find_header_skip(rest, name, i - 1);
        assert(rest.skip(i - 1) =~= headers.skip(i));
    } else {
        assert(headers.skip(0) =~= headers);
    }
}

/// Finds the first header with the given name.
pub fn find_header<'a>(headers: &'a Vec<HeaderFact>, name: &str) -> (r: Option<&'a HeaderFact>)
    ensures
        match r {
            Some(h) => spec_find_header(headers@, name@) == Some(*h),
            None => spec_find_header(headers@, name@) is None,
        },
{
    let mut i: usize = 0;
    while i < headers.len()
        invariant
            0 <= i <= headers@.len(),
            forall|j: int| 0 <= j < i ==> (#[trigger] headers@[j]).name@ != name@,
        decreases headers@.len() - i,
    {
        if str_eq(headers[i].name.as_str(), name) {
            proof {
                lemma_find_header_skip(headers@, name@, i as int);
                assert(headers@.skip(i as int).len() > 0);
                assert(headers@.skip(i as int)[0] == headers@[i as int]);
            }
            return Some(&headers[i]);
        }
        i = i + 1;
    }
    proof {
        lemma_find_header_skip(headers@, name@, headers@.len() as int);
        assert(headers@.skip(headers@.len() as int).len() == 0);
    }
    None
}

/// The readable text of the first header with the given name: `None` when
/// the header is absent or its value is not readable as text.
pub open spec fn spec_header_text(headers: Seq<HeaderFact>, name: Seq<char>) -> Option<Seq<char>> {
    match spec_find_header(headers, name) {
        Some(h) => match h.value {
            Some(v) => Some(v@),
            None => None,
        },
        None => None,
    }
}

/// The value of the `content-length` header when it parses as a decimal
/// number, and 0 on any anomaly: header absent, unreadable, or not a
/// number.
pub open spec fn spec_content_length(headers: Seq<HeaderFact>) -> int {
    match spec_header_text(headers, "content-length"@) {
        Some(v) => match spec_parse_usize(encode_utf8(v)) {
            Some(n) => n as int,
            None => 0,
        },
        None => 0,
    }
}

/// Reads the `content-length` header, falling back to 0 on any anomaly.
pub fn content_length(headers: &Vec<HeaderFact>) -> (r: usize)
    ensures
        r as int == spec_content_length(headers@),
{
    match find_header(headers, "content-length") {
        Some(h) => match &h.value {
            Some(v) => match parse_usize(v.as_str()) {
                Some(n) => n,
                None => 0,
            },
            None => 0,
        },
        None => 0,
    }
}

/// The bytes one header contributes to the request size: name plus value.
pub open spec fn spec_header_bytes(h: HeaderFact) -> int {
    encode_utf8(h.name@).len() + h.value_len
}

/// The bytes the first `n` headers contribute to the request size.
pub open spec fn spec_headers_bytes(headers: Seq<HeaderFact>, n: int) -> int
    decreases n,
{
    if n <= 0 {
        0
    } else {
        spec_headers_bytes(headers, n - 1) + spec_header_bytes(headers[n - 1])
    }
}

pub proof fn lemma_headers_bytes_nonneg(headers: Seq<HeaderFact>, n: int)
    ensures
        spec_headers_bytes(headers, n) >= 0,
    decreases n,
{
    if n > 0 {
        lemma_headers_bytes_nonneg(headers, n - 1);
    }
}

pub proof fn lemma_headers_bytes_mono(headers: Seq<HeaderFact>, n: int, m: int)
    requires
        n <= m,
    ensures
        spec_headers_bytes(headers, n) <= spec_headers_bytes(headers, m),
    decreases m - n,
{
    if n < m {
        lemma_headers_bytes_mono(headers, n, m - 1);
    }
}

/// The approximate size of a request, in bytes: path length, plus method
/// length, plus every header's name and value lengths, plus the URI host
/// length, plus the parsed `content-length` value (0 when unparseable).
pub open spec fn spec_request_size(f: RequestFacts) -> int {
    encode_utf8(f.path@).len() + encode_utf8(f.method@).len() + spec_headers_bytes(
        f.headers@,
        f.headers@.len() as int,
    ) + f.uri_host_len + spec_content_length(f.headers@)
}

/// The request size, computed with saturating sums so that no input can
/// overflow: exactly the specified sum whenever that sum is representable.
pub fn approximate_request_size_clamped(f: &RequestFacts) -> (s: usize)
    ensures
        spec_request_size(*f) <= usize::MAX ==> s as int == spec_request_size(*f),
{
    let ghost hs = f.headers@;
    let ghost total = spec_request_size(*f);
    let cl = content_length(&f.headers);
    let mut s: usize = f.path.as_str().len();
    s = s.saturating_add(f.method.as_str().len());
    proof {
        assert(spec_headers_bytes(hs, 0) == 0);
        lemma_headers_bytes_nonneg(hs, hs.len() as int);
    }
    let mut i: usize = 0;
    while i < f.headers.len()
        invariant
            0 <= i <= hs.len(),
            hs == f.headers@,
            total == spec_request_size(*f),
            cl as int == spec_content_length(hs),
            total <= usize::MAX ==> s as int == encode_utf8(f.path@).len() + encode_utf8(
                f.method@,
            ).len() + spec_headers_bytes(hs, i as int),
            total == encode_utf8(f.path@).len() + encode_utf8(f.method@).len()
                + spec_headers_bytes(hs, hs.len() as int) + f.uri_host_len + cl,
        decreases hs.len() - i,
    {
        let h = &f.headers[i];
        proof {
            lemma_headers_bytes_mono(hs, i + 1, hs.len() as int);
            assert(spec_headers_bytes(hs, i + 1) == spec_headers_bytes(hs, i as int)
                + spec_header_bytes(hs[i as int]));
        }
        s = s.saturating_add(h.name.as_str().len());
        s = s.saturating_add(h.value_len);
        i = i + 1;
    }
    proof {
        lemma_headers_bytes_mono(hs, i as int, hs.len() as int);
    }
    s = s.saturating_add(f.uri_host_len);
    s = s.saturating_add(cl);
    s
}

/// Computes the approximate request size as the exact sum of the path,
/// method, header name and value byte lengths, the URI host length, and
/// the parsed `content-length` value.
pub fn compute_approximate_request_size(f: &RequestFacts) -> (s: usize)
    requires
        spec_request_size(*f) <= usize::MAX,
    ensures
        s as int == spec_request_size(*f),
{
    approximate_request_size_clamped(f)
}

/// The resolved transport scheme: `https` when the server itself runs
/// TLS; otherwise the first readable value among the conventional proxy
/// scheme headers; otherwise `http`.
pub open spec fn spec_resolve_scheme(is_tls: bool, headers: Seq<HeaderFact>) -> Seq<char> {
    if is_tls {
        "https"@
    } else if spec_header_text(headers, "x-forwarded-proto"@) is Some {
        spec_header_text(headers, "x-forwarded-proto"@)->0
    } else if spec_header_text(headers, "x-forwarded-protocol"@) is Some {
        spec_header_text(headers, "x-forwarded-protocol"@)->0
    } else if spec_header_text(headers, "x-url-scheme"@) is Some {
        spec_header_text(headers, "x-url-scheme"@)->0
    } else {
        "http"@
    }
}

fn header_text(headers: &Vec<HeaderFact>, name: &str) -> (r: Option<String>)
    ensures
        match r {
            Some(v) => spec_header_text(headers@, name@) == Some(v@),
            None => spec_header_text(headers@, name@) is None,
        },
{
    match find_header(headers, name) {
        Some(h) => match &h.value {
            Some(v) => Some(v.clone()),
            None => None,
        },
        None => None,
    }
}

/// Resolves the transport scheme by precedence: the TLS flag, then the
/// proxy scheme headers, then plain `http`.
pub fn resolve_scheme(is_tls: bool, headers: &Vec<HeaderFact>) -> (r: String)
    ensures
        r@ == spec_resolve_scheme(is_tls, headers@),
{
    if is_tls {
        return "https".to_owned();
    }
    if let Some(v) = header_text(headers, "x-forwarded-proto") {
        return v;
    }
    if let Some(v) = header_text(headers, "x-forwarded-protocol") {
        return v;
    }
    if let Some(v) = header_text(headers, "x-url-scheme") {
        return v;
    }
    "http".to_owned()
}

/// The `server.address` label value: the `host` header, or `unknown`.
pub open spec fn spec_host_label(headers: Seq<HeaderFact>) -> Seq<char> {
    match spec_header_text(headers, "host"@) {
        Some(v) => v,
        None => "unknown"@,
    }
}

/// Reads the `host` header, defaulting to `unknown`.
pub fn host_label(headers: &Vec<HeaderFact>) -> (r: String)
    ensures
        r@ == spec_host_label(headers@),
{
    match header_text(headers, "host") {
        Some(v) => v,
        None => "unknown".to_owned(),
    }
}

/// The route label value: the matched route template, or empty when the
/// router matched none.
pub open spec fn spec_route_label(f: RequestFacts) -> Seq<char> {
    match f.matched_route {
        Some(r) => r@,
        None => Seq::empty(),
    }
}

/// The matched route template, or the empty string.
pub fn route_label(f: &RequestFacts) -> (r: String)
    ensures
        r@ == spec_route_label(*f),
{
    match &f.matched_route {
        Some(r) => r.clone(),
        None => String::new(),
    }
}

} // verus!
