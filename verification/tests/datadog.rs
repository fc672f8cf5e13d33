use otlp_setup::builder::ExportError;
use otlp_setup::datadog::{
    check_json_number, encode_log_record, AttrValue, Buffer, IoLogExporter, LogRecord,
    TraceContextIds,
};

fn plain_record() -> LogRecord {
    LogRecord {
        body: Some(AttrValue::Text("my message".to_string())),
        timestamp_nanos: Some(1_700_000_000_000_000_000i128),
        observed_timestamp_nanos: None,
        severity_text: Some("INFO".to_string()),
        trace_context: None,
        attributes: vec![("data".to_string(), AttrValue::Int(1))],
    }
}

#[test]
fn file_sink_round_trip() {
    let line = encode_log_record(&plain_record()).expect("encode");
    let value: serde_json::Value = serde_json::from_str(&line).expect("valid JSON");
    assert_eq!(value["level"], "INFO");
    assert_eq!(value["message"], "my message");
    assert_eq!(value["fields.data"], 1);
    let timestamp = value["timestamp"].as_str().expect("timestamp field");
    assert!(timestamp.starts_with("20"));
    assert!(timestamp.ends_with("Z"));
}

#[test]
fn escaping_round_trips() {
    let record = LogRecord {
        body: Some(AttrValue::Text("a \"quoted\" \\ back\nslash\ttab".to_string())),
        timestamp_nanos: None,
        observed_timestamp_nanos: None,
        severity_text: None,
        trace_context: None,
        attributes: vec![("weird \"key\"".to_string(), AttrValue::Text("\u{1}".to_string()))],
    };
    let line = encode_log_record(&record).expect("encode");
    let value: serde_json::Value = serde_json::from_str(&line).expect("valid JSON");
    assert_eq!(value["message"], "a \"quoted\" \\ back\nslash\ttab");
    assert_eq!(value["fields.weird \"key\""], "\u{1}");
}

#[test]
fn observed_timestamp_is_a_fallback() {
    let mut record = plain_record();
    record.timestamp_nanos = None;
    record.observed_timestamp_nanos = Some(0);
    let line = encode_log_record(&record).expect("encode");
    let value: serde_json::Value = serde_json::from_str(&line).expect("valid JSON");
    assert_eq!(value["timestamp"], "1970-01-01T00:00:00Z");
    let mut bare = plain_record();
    bare.timestamp_nanos = None;
    bare.observed_timestamp_nanos = None;
    let line = encode_log_record(&bare).expect("encode");
    let value: serde_json::Value = serde_json::from_str(&line).expect("valid JSON");
    assert!(value.get("timestamp").is_none());
}

#[test]
fn trace_context_ids_are_emitted() {
    let mut record = plain_record();
    record.trace_context = Some(TraceContextIds { trace_id: 42, span_id: 7 });
    let line = encode_log_record(&record).expect("encode");
    let value: serde_json::Value = serde_json::from_str(&line).expect("valid JSON");
    assert_eq!(value["dd.trace_id"], 42);
    assert_eq!(value["dd.span_id"], 7);
    let without = encode_log_record(&plain_record()).expect("encode");
    let value: serde_json::Value = serde_json::from_str(&without).expect("valid JSON");
    assert!(value.get("dd.trace_id").is_none());
    assert!(value.get("dd.span_id").is_none());
}

#[test]
fn value_shapes_map_to_json() {
    let record = LogRecord {
        body: None,
        timestamp_nanos: None,
        observed_timestamp_nanos: None,
        severity_text: None,
        trace_context: None,
        attributes: vec![
            ("flag".to_string(), AttrValue::Bool(true)),
            ("min".to_string(), AttrValue::Int(i64::MIN)),
            ("ratio".to_string(), AttrValue::Double("1.5e2".to_string())),
            ("bytes".to_string(), AttrValue::Bytes(vec![1, 2, 255])),
            (
                "list".to_string(),
                AttrValue::List(vec![AttrValue::Int(1), AttrValue::Text("two".to_string())]),
            ),
            (
                "nested".to_string(),
                AttrValue::NestedMap(vec![("inner".to_string(), AttrValue::Bool(false))]),
            ),
        ],
    };
    let line = encode_log_record(&record).expect("encode");
    let value: serde_json::Value = serde_json::from_str(&line).expect("valid JSON");
    assert_eq!(value["fields.flag"], true);
    assert_eq!(value["fields.min"], -9223372036854775808i64);
    assert_eq!(value["fields.ratio"], 150.0);
    assert_eq!(value["fields.bytes"], serde_json::Value::Array(vec![1.into(), 2.into(), 255.into()]));
    assert_eq!(value["fields.list"][0], 1);
    assert_eq!(value["fields.list"][1], "two");
    assert_eq!(value["fields.nested"]["inner"], false);
}

#[test]
fn unsupported_value_is_a_hard_error() {
    let mut record = plain_record();
    record.attributes.push(("bad".to_string(), AttrValue::Unsupported));
    assert_eq!(encode_log_record(&record), Err(ExportError::Unsupported));
    let mut bad_double = plain_record();
    bad_double.attributes.push(("d".to_string(), AttrValue::Double("not a number".to_string())));
    assert_eq!(encode_log_record(&bad_double), Err(ExportError::Unsupported));
}

#[test]
fn json_number_grammar() {
    for good in ["0", "-0", "7", "-42", "10.25", "0.5", "1e10", "1E+2", "2.5e-3", "999999999999"] {
        assert!(check_json_number(good), "{good} should pass");
    }
    for bad in ["", "-", "01", "1.", ".5", "+1", "1e", "1e+", "abc", "1..2", "--1", "1 "] {
        assert!(!check_json_number(bad), "{bad} should fail");
    }
}

#[test]
fn exporter_writes_one_line_per_record() {
    let exporter = IoLogExporter::new();
    let batch = vec![plain_record(), plain_record()];
    let text = exporter.export(&batch).expect("export");
    let lines: Vec<&str> = text.lines().collect();
    assert_eq!(lines.len(), 2);
    for line in lines {
        let value: serde_json::Value = serde_json::from_str(line).expect("valid JSON");
        assert_eq!(value["message"], "my message");
    }
}

#[test]
fn exporter_refuses_after_shutdown() {
    let mut exporter = IoLogExporter::new();
    let batch = vec![plain_record()];
    assert!(exporter.export(&batch).is_ok());
    assert!(exporter.shutdown_with_timeout(0).is_ok());
    assert_eq!(exporter.export(&batch), Err(ExportError::AlreadyShutdown));
}

#[test]
fn exporter_reports_serialization_failures() {
    let exporter = IoLogExporter::new();
    let mut record = plain_record();
    record.body = Some(AttrValue::Unsupported);
    assert_eq!(exporter.export(&vec![record]), Err(ExportError::Unsupported));
}

#[test]
fn buffer_accumulates_and_truncates() {
    let mut buffer = Buffer::new();
    assert_eq!(buffer.push_bytes(b"abc"), 3);
    assert_eq!(buffer.as_str(), Some("abc"));
    let big = vec![b'x'; 1500];
    assert_eq!(buffer.push_bytes(&big), 1021);
    assert_eq!(buffer.push_bytes(b"more"), 0);
    buffer.clear();
    assert_eq!(buffer.as_str(), Some(""));
    assert_eq!(buffer.push_bytes(&big), 1024);
}

#[test]
fn buffer_stages_through_callback() {
    let mut buffer = Buffer::new();
    let staged = buffer.as_str_with(|mut b| {
        b.push_bytes(b"staged text");
        (b, true)
    });
    assert_eq!(staged, Some("staged text"));
    let rejected = buffer.as_str_with(|b| (b, false));
    assert_eq!(rejected, None);
    assert_eq!(buffer.as_str(), Some(""));
}

#[test]
fn buffer_rejects_invalid_utf8() {
    let mut buffer = Buffer::new();
    assert_eq!(buffer.push_bytes(&[0xff, 0xfe]), 2);
    assert_eq!(buffer.as_str(), None);
}
