//! Trace context propagation: carrier interfaces for reading a parent trace
//! context out of, and writing the current one into, key/value transports
//! (header maps, plain collections), and a span wrapper built over them.

use vstd::prelude::*;
use tracing_opentelemetry::OpenTelemetrySpanExt;

verus! {

/// A carrier the current trace context can be written into.
pub trait ParentDestination {
    /// Sets context `value` at `key`.
    fn set(&mut self, key: &str, value: String);
}

/// A carrier a parent trace context can be read from.
pub trait ParentSource {
    /// Retrieves the value at `key`.
    fn get(&self, key: &str) -> Option<&str>;

    /// The keys the carrier holds.
    fn keys(&self) -> Vec<String>;
}

/// Relies on str's PartialEq: equal exactly when the characters are.
#[verifier::external_body]
fn str_eq(a: &str, b: &str) -> (r: bool)
    ensures
        r == (a@ == b@),
{
    a == b
}

/// The value of the first pair at or after `i` whose key is `key`.
pub open spec fn first_value_for(
    pairs: Seq<(String, String)>,
    key: Seq<char>,
    i: int,
) -> Option<Seq<char>>
    decreases pairs.len() - i,
{
    if 0 <= i < pairs.len() {
        if pairs[i].0@ == key {
            Some(pairs[i].1@)
        } else {
            first_value_for(pairs, key, i + 1)
        }
    } else {
        None
    }
}

/// Looks `key` up among `pairs`, returning the first match's value.
#[verifier::loop_isolation(false)]
pub fn lookup_pair<'a>(pairs: &'a [(String, String)], key: &str) -> (r: Option<&'a str>)
    ensures
        r is Some <==> first_value_for(pairs@, key@, 0) is Some,
        r matches Some(v) ==> Some(v@) == first_value_for(pairs@, key@, 0),
{
    let mut i: usize = 0;
    while i < pairs.len()
        invariant
            i <= pairs@.len(),
            first_value_for(pairs@, key@, 0) == first_value_for(pairs@, key@, i as int),
        decreases pairs@.len() - i,
    {
        let pair = vstd::slice::slice_index_get(pairs, i);
        if str_eq(pair.0.as_str(), key) {
            return Some(pair.1.as_str());
        }
        i = i + 1;
    }
    None
}

/// The keys of `pairs`, in order.
#[verifier::loop_isolation(false)]
pub fn pair_keys(pairs: &[(String, String)]) -> (r: Vec<String>)
    ensures
        r@.len() == pairs@.len(),
        forall|j: int| 0 <= j < pairs@.len() ==> r@[j]@ == pairs@[j].0@,
{
    let mut keys: Vec<String> = Vec::new();
    let mut i: usize = 0;
    while i < pairs.len()
        invariant
            i <= pairs@.len(),
            keys@.len() == i,
            forall|j: int| 0 <= j < i ==> keys@[j]@ == pairs@[j].0@,
        decreases pairs@.len() - i,
    {
        keys.push(vstd::slice::slice_index_get(pairs, i).0.clone());
        i = i + 1;
    }
    keys
}

impl ParentDestination for Vec<(String, String)> {
    fn set(&mut self, key: &str, value: String) {
        self.push((key.to_owned(), value));
    }
}

impl ParentSource for Vec<(String, String)> {
    fn get(&self, key: &str) -> Option<&str> {
        lookup_pair(self.as_slice(), key)
    }

    fn keys(&self) -> Vec<String> {
        pair_keys(self.as_slice())
    }
}

impl ParentDestination for std::collections::HashMap<String, String> {
    fn set(&mut self, key: &str, value: String) {
        self.insert(key.to_owned(), value);
    }
}

impl ParentSource for std::collections::HashMap<String, String> {
    fn get(&self, key: &str) -> Option<&str> {
        match std::collections::HashMap::get(self, key) {
            Some(v) => Some(v.as_str()),
            None => None,
        }
    }

    fn keys(&self) -> Vec<String> {
        hash_map_keys(self)
    }
}

impl ParentDestination for std::collections::BTreeMap<String, String> {
    fn set(&mut self, key: &str, value: String) {
        self.insert(key.to_owned(), value);
    }
}

impl ParentSource for std::collections::BTreeMap<String, String> {
    fn get(&self, key: &str) -> Option<&str> {
        match std::collections::BTreeMap::get(self, key) {
            Some(v) => Some(v.as_str()),
            None => None,
        }
    }

    fn keys(&self) -> Vec<String> {
        btree_map_keys(self)
    }
}

/// Relies on HashMap::keys: the map's keys, in the map's own order.
#[verifier::external_body]
fn hash_map_keys(map: &std::collections::HashMap<String, String>) -> Vec<String> {
    map.keys().cloned().collect()
}

/// Relies on BTreeMap::keys: the map's keys, in key order.
#[verifier::external_body]
fn btree_map_keys(map: &std::collections::BTreeMap<String, String>) -> Vec<String> {
    map.keys().cloned().collect()
}

impl ParentDestination for tonic::metadata::MetadataMap {
    fn set(&mut self, key: &str, value: String) {
        metadata_insert(self, key, value);
    }
}

impl ParentSource for tonic::metadata::MetadataMap {
    fn get(&self, key: &str) -> Option<&str> {
        metadata_get(self, key)
    }

    fn keys(&self) -> Vec<String> {
        metadata_keys(self)
    }
}

/// Relies on tonic's MetadataKey::from_bytes, value parsing and insert; a
/// pair the transport cannot carry — malformed, or past the capacity the
/// transport's map aborts beyond — is dropped.
#[verifier::external_body]
fn metadata_insert(map: &mut tonic::metadata::MetadataMap, key: &str, value: String) {
    if map.len() >= crate::builder::MAX_TRANSPORT_HEADERS {
        return;
    }
    if let Ok(parsed_key) = tonic::metadata::MetadataKey::from_bytes(key.as_bytes()) {
        if let Ok(parsed_value) = value.parse::<tonic::metadata::MetadataValue<
            tonic::metadata::Ascii,
        >>() {
            map.insert(parsed_key, parsed_value);
        }
    }
}

/// Relies on tonic's MetadataMap::get: the value at the key, when it is text.
#[verifier::external_body]
fn metadata_get<'a>(map: &'a tonic::metadata::MetadataMap, key: &str) -> Option<&'a str> {
    tonic::metadata::MetadataMap::get(map, key).and_then(|value| value.to_str().ok())
}

/// Relies on tonic's MetadataMap iteration: every key, each as text.
#[verifier::external_body]
fn metadata_keys(map: &tonic::metadata::MetadataMap) -> Vec<String> {
    map.iter().map(
        |kv|
            match kv {
                tonic::metadata::KeyAndValueRef::Ascii(key, _) => key.as_str().to_owned(),
                tonic::metadata::KeyAndValueRef::Binary(key, _) => key.as_str().to_owned(),
            },
    ).collect()
}

impl ParentDestination for http::HeaderMap {
    fn set(&mut self, key: &str, value: String) {
        header_map_insert(self, key, value);
    }
}

impl ParentSource for http::HeaderMap {
    fn get(&self, key: &str) -> Option<&str> {
        header_map_get(self, key)
    }

    fn keys(&self) -> Vec<String> {
        header_map_keys(self)
    }
}

#[verifier::external_type_specification]
#[verifier::external_body]
#[verifier::reject_recursive_types(T)]
/// The HTTP transport's header map, carried through opaquely.
pub struct ExHeaderMap<T>(http::HeaderMap<T>);

#[verifier::external_type_specification]
#[verifier::external_body]
/// The HTTP transport's header value, carried through opaquely.
pub struct ExHeaderValue(http::HeaderValue);

/// Relies on http's HeaderName::from_bytes, value parsing and try_insert; a
/// pair the transport cannot carry — malformed, or past the map's capacity —
/// is dropped.
#[verifier::external_body]
fn header_map_insert(map: &mut http::HeaderMap, key: &str, value: String) {
    if let Ok(parsed_key) = http::header::HeaderName::from_bytes(key.as_bytes()) {
        if let Ok(parsed_value) = value.try_into() {
            let _ = map.try_insert(parsed_key, parsed_value);
        }
    }
}

/// Relies on http's HeaderMap::get: the value at the key, when it is text.
#[verifier::external_body]
fn header_map_get<'a>(map: &'a http::HeaderMap, key: &str) -> Option<&'a str> {
    http::HeaderMap::get(map, key).and_then(|value| value.to_str().ok())
}

/// Relies on http's HeaderMap iteration: every key, each as text.
#[verifier::external_body]
fn header_map_keys(map: &http::HeaderMap) -> Vec<String> {
    map.iter().map(|(key, _)| key.as_str().to_owned()).collect()
}

/// A read-only key/value view over borrowed pairs, usable wherever a parent
/// trace context is read from plain data.
#[derive(Clone, Copy)]
pub struct ParentSourceIter<'a> {
    inner: &'a [(String, String)],
}

impl<'a> ParentSourceIter<'a> {
    /// The pairs the source reads.
    pub closed spec fn spec_pairs(self) -> Seq<(String, String)> {
        self.inner@
    }

    /// Creates a source over the given pairs.
    pub fn new(inner: &'a [(String, String)]) -> (r: Self)
        ensures
            r.spec_pairs() == inner@,
    {
        ParentSourceIter { inner }
    }
}

impl<'a> ParentSource for ParentSourceIter<'a> {
    fn get(&self, key: &str) -> Option<&str> {
        lookup_pair(self.inner, key)
    }

    fn keys(&self) -> Vec<String> {
        pair_keys(self.inner)
    }
}

#[verifier::external_type_specification]
#[verifier::external_body]
/// The instrumentation front end's span handle, carried through opaquely.
pub struct ExSpan(tracing::Span);

/// A span wrapper providing trace context propagation.
pub struct Context {
    span: tracing::Span,
}

impl Context {
    /// The span the context wraps.
    pub closed spec fn spec_span(self) -> tracing::Span {
        self.span
    }

    /// Creates a context associated with `span`.
    pub fn new(span: tracing::Span) -> (r: Self)
        ensures
            r.spec_span() == span,
    {
        Context { span }
    }

    /// Creates a context from the currently executing span.
    pub fn current() -> Self {
        Context { span: span_current() }
    }

    /// The wrapped span, borrowed.
    pub fn as_span(&self) -> (r: &tracing::Span)
        ensures
            *r == self.spec_span(),
    {
        &self.span
    }

    /// Extracts the wrapped span.
    pub fn into_tracing_span(self) -> (r: tracing::Span)
        ensures
            r == self.spec_span(),
    {
        self.span
    }

    /// Sets the span's status: success for `Ok`, else an error carrying the
    /// message. A disabled span is left untouched.
    pub fn set_status(&self, status: Result<(), String>) {
        if !span_is_disabled(&self.span) {
            match status {
                Ok(()) => span_set_status_ok(&self.span),
                Err(description) => span_set_status_error(&self.span, description),
            }
        }
    }
}

/// Relies on tracing::Span::current: the span of the calling context.
#[verifier::external_body]
fn span_current() -> tracing::Span {
    tracing::Span::current()
}

/// Relies on tracing::Span::is_none: whether the span is disabled.
#[verifier::external_body]
fn span_is_disabled(span: &tracing::Span) -> bool {
    span.is_none()
}

/// Relies on tracing_opentelemetry's span extension: records the OK status.
#[verifier::external_body]
fn span_set_status_ok(span: &tracing::Span) {
    span.set_status(opentelemetry::trace::Status::Ok);
}

/// Relies on tracing_opentelemetry's span extension: records an error status
/// with the description.
#[verifier::external_body]
fn span_set_status_error(span: &tracing::Span, description: String) {
    span.set_status(opentelemetry::trace::Status::Error { description: description.into() });
}

} // verus!
