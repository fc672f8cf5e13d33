use otlp_setup::propagation::{
    lookup_pair, pair_keys, Context, ParentDestination, ParentSource, ParentSourceIter,
};

fn pairs() -> Vec<(String, String)> {
    vec![
        ("traceparent".to_string(), "00-abc-def-01".to_string()),
        ("tracestate".to_string(), "dd=s:1".to_string()),
        ("traceparent".to_string(), "shadowed".to_string()),
    ]
}

#[test]
fn lookup_finds_first_match() {
    let data = pairs();
    assert_eq!(lookup_pair(&data, "traceparent"), Some("00-abc-def-01"));
    assert_eq!(lookup_pair(&data, "tracestate"), Some("dd=s:1"));
    assert_eq!(lookup_pair(&data, "absent"), None);
    assert_eq!(lookup_pair(&[], "traceparent"), None);
}

#[test]
fn pair_keys_preserves_order() {
    let data = pairs();
    assert_eq!(
        pair_keys(&data),
        vec!["traceparent".to_string(), "tracestate".to_string(), "traceparent".to_string()]
    );
}

#[test]
fn vec_is_a_carrier() {
    let mut dest: Vec<(String, String)> = Vec::new();
    ParentDestination::set(&mut dest, "traceparent", "00-abc-def-01".to_string());
    assert_eq!(ParentSource::get(&dest, "traceparent"), Some("00-abc-def-01"));
    assert_eq!(ParentSource::keys(&dest), vec!["traceparent".to_string()]);
}

#[test]
fn hash_map_is_a_carrier() {
    let mut dest = std::collections::HashMap::<String, String>::new();
    ParentDestination::set(&mut dest, "traceparent", "00-abc-def-01".to_string());
    ParentDestination::set(&mut dest, "traceparent", "replaced".to_string());
    assert_eq!(ParentSource::get(&dest, "traceparent"), Some("replaced"));
    assert_eq!(ParentSource::keys(&dest), vec!["traceparent".to_string()]);
}

#[test]
fn btree_map_is_a_carrier() {
    let mut dest = std::collections::BTreeMap::<String, String>::new();
    ParentDestination::set(&mut dest, "b", "2".to_string());
    ParentDestination::set(&mut dest, "a", "1".to_string());
    assert_eq!(ParentSource::get(&dest, "a"), Some("1"));
    assert_eq!(ParentSource::keys(&dest), vec!["a".to_string(), "b".to_string()]);
}

#[test]
fn source_iter_reads_borrowed_pairs() {
    let data = pairs();
    let source = ParentSourceIter::new(&data);
    assert_eq!(ParentSource::get(&source, "tracestate"), Some("dd=s:1"));
    assert_eq!(ParentSource::keys(&source).len(), 3);
}

#[test]
fn metadata_map_is_a_carrier() {
    let mut map = tonic::metadata::MetadataMap::new();
    ParentDestination::set(&mut map, "traceparent", "00-abc-def-01".to_string());
    assert_eq!(ParentSource::get(&map, "traceparent"), Some("00-abc-def-01"));
    assert_eq!(ParentSource::keys(&map), vec!["traceparent".to_string()]);
    ParentDestination::set(&mut map, "bad key", "dropped".to_string());
    assert_eq!(ParentSource::get(&map, "bad key"), None);
}

#[test]
fn header_map_is_a_carrier() {
    let mut map = http::HeaderMap::new();
    ParentDestination::set(&mut map, "traceparent", "00-abc-def-01".to_string());
    assert_eq!(ParentSource::get(&map, "traceparent"), Some("00-abc-def-01"));
    assert_eq!(ParentSource::keys(&map), vec!["traceparent".to_string()]);
}

#[test]
fn context_wraps_a_span() {
    let span = tracing::Span::none();
    let context = Context::new(span.clone());
    context.set_status(Ok(()));
    context.set_status(Err("failed".to_string()));
    let unwrapped = context.into_tracing_span();
    assert_eq!(unwrapped.id(), span.id());
    let current = Context::current();
    current.set_status(Ok(()));
}
