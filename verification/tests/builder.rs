use otlp_setup::builder::{
    aggregate_shutdown, kind_endpoint, sampler_for, ConfigError, Destination, ExportError,
    MetricsSettings, Otlp, Protocol, SamplerKind, TelemetryKind, Temporality, TraceSettings,
};


fn in_runtime<T>(run: impl FnOnce() -> T) -> T {
    let runtime = tokio::runtime::Runtime::new().expect("runtime");
    let guard = runtime.enter();
    let result = run();
    drop(guard);
    result
}

fn grpc_dest() -> Destination {
    Destination { protocol: Protocol::Grpc, url: "http://localhost:4317".to_string() }
}

fn http_dest(protocol: Protocol) -> Destination {
    Destination { protocol, url: "http://localhost:4318/".to_string() }
}

#[test]
fn url_suffixing_strips_one_slash() {
    assert_eq!(kind_endpoint("http://host:1234/", TelemetryKind::Logs), "http://host:1234/logs");
    assert_eq!(
        kind_endpoint("http://host:1234/", TelemetryKind::Trace),
        "http://host:1234/traces"
    );
    assert_eq!(
        kind_endpoint("http://host:1234/", TelemetryKind::Metrics),
        "http://host:1234/metrics"
    );
    assert_eq!(kind_endpoint("http://host:1234", TelemetryKind::Logs), "http://host:1234/logs");
    assert_eq!(kind_endpoint("http://host:1234//", TelemetryKind::Logs), "http://host:1234//logs");
    assert_eq!(kind_endpoint("", TelemetryKind::Logs), "/logs");
}

#[test]
fn enabled_subsets_match() {
    in_runtime(|| {
        for logs in [false, true] {
            for trace in [false, true] {
                for metrics in [false, true] {
                    let mut builder = Otlp::builder(grpc_dest());
                    if logs {
                        builder = builder.with_logs(None).expect("enable logs");
                    }
                    if trace {
                        builder =
                            builder.with_trace(None, TraceSettings::new(1_000_000)).expect("enable trace");
                    }
                    if metrics {
                        builder =
                            builder.with_metrics(None, MetricsSettings::new()).expect("enable metrics");
                    }
                    let mut otlp = builder.finish();
                    assert_eq!(otlp.logs_enabled(), logs);
                    assert_eq!(otlp.trace_enabled(), trace);
                    assert_eq!(otlp.metrics_enabled(), metrics);
                    let _ = otlp.shutdown(50);
                    assert!(!otlp.logs_enabled() && !otlp.trace_enabled() && !otlp.metrics_enabled());
                }
            }
        }
    });
}

#[test]
fn double_enable_logs_fails() {
    in_runtime(|| {
        let builder = Otlp::builder(grpc_dest()).with_logs(None).expect("enable logs");
        match builder.with_logs(None) {
            Err(ConfigError::AlreadyEnabled(TelemetryKind::Logs)) => {}
            other => panic!("expected fatal double-enable, got {:?}", other.map(|_| ())),
        }
    });
}

#[test]
fn double_enable_trace_fails() {
    in_runtime(|| {
        let builder = Otlp::builder(grpc_dest())
            .with_trace(None, TraceSettings::new(0))
            .expect("enable trace");
        match builder.with_trace(None, TraceSettings::new(1_000_000)) {
            Err(ConfigError::AlreadyEnabled(TelemetryKind::Trace)) => {}
            other => panic!("expected fatal double-enable, got {:?}", other.map(|_| ())),
        }
    });
}

#[test]
fn double_enable_metrics_fails() {
    in_runtime(|| {
        let builder = Otlp::builder(grpc_dest())
            .with_metrics(None, MetricsSettings::new())
            .expect("enable metrics");
        match builder.with_metrics(None, MetricsSettings::new().with_delta()) {
            Err(ConfigError::AlreadyEnabled(TelemetryKind::Metrics)) => {}
            other => panic!("expected fatal double-enable, got {:?}", other.map(|_| ())),
        }
    });
}

#[test]
fn empty_handle_shutdown_succeeds() {
    let mut with_zero_limit = Otlp::builder(grpc_dest()).finish();
    assert!(with_zero_limit.shutdown(0).is_ok());
    let mut with_default_limit = Otlp::builder(grpc_dest()).finish();
    assert!(with_default_limit.shutdown(10_000).is_ok());
}

#[test]
fn shutdown_is_idempotent_on_emptied_handle() {
    in_runtime(|| {
        let mut otlp = Otlp::builder(grpc_dest()).with_logs(None).expect("enable logs").finish();
        let _ = otlp.shutdown(50);
        assert!(otlp.shutdown(0).is_ok());
    });
}

#[test]
fn aggregated_error_reports_failing_kinds() {
    match aggregate_shutdown(Some(Err(ExportError::Timeout)), Some(Ok(())), None) {
        Err(e) => {
            assert_eq!(e.logs, Some(ExportError::Timeout));
            assert_eq!(e.trace, None);
            assert_eq!(e.metrics, None);
        }
        Ok(()) => panic!("a failing kind must surface"),
    }
    match aggregate_shutdown(
        Some(Err(ExportError::AlreadyShutdown)),
        Some(Ok(())),
        Some(Err(ExportError::Internal("boom".to_string()))),
    ) {
        Err(e) => {
            assert_eq!(e.logs, Some(ExportError::AlreadyShutdown));
            assert_eq!(e.trace, None);
            assert_eq!(e.metrics, Some(ExportError::Internal("boom".to_string())));
        }
        Ok(()) => panic!("failing kinds must surface"),
    }
    assert!(aggregate_shutdown(Some(Ok(())), Some(Ok(())), Some(Ok(()))).is_ok());
    assert!(aggregate_shutdown(None, None, None).is_ok());
}

#[test]
fn sample_rate_clamps() {
    assert_eq!(TraceSettings::new(1_500_000), TraceSettings::new(1_000_000));
    assert_eq!(TraceSettings::new(-200_000), TraceSettings::new(0));
    assert_eq!(TraceSettings::new(250_000).sample_rate, 250_000);
}

#[test]
fn deterministic_sampler_selection() {
    let never = TraceSettings::new(0).with_respect_parent_sampling(false);
    assert_eq!(sampler_for(&never), SamplerKind::AlwaysOff);
    let always = TraceSettings::new(1_000_000).with_respect_parent_sampling(false);
    assert_eq!(sampler_for(&always), SamplerKind::AlwaysOn);
    let half = TraceSettings::new(500_000).with_respect_parent_sampling(false);
    assert_eq!(sampler_for(&half), SamplerKind::Ratio(500_000));
    let parent = TraceSettings::new(0);
    assert_eq!(sampler_for(&parent), SamplerKind::ParentBasedRatio(0));
}

#[test]
fn trace_settings_limits_accumulate() {
    let settings = TraceSettings::new(1_000_000)
        .with_max_events_per_span(10)
        .with_max_attributes_per_span(20)
        .with_max_links_per_span(30)
        .with_max_attributes_per_link(40)
        .with_max_attributes_per_event(50);
    assert_eq!(settings.limits.max_events_per_span, 10);
    assert_eq!(settings.limits.max_attributes_per_span, 20);
    assert_eq!(settings.limits.max_links_per_span, 30);
    assert_eq!(settings.limits.max_attributes_per_link, 40);
    assert_eq!(settings.limits.max_attributes_per_event, 50);
    assert!(settings.respect_parent);
}

#[test]
fn metrics_settings_temporality() {
    assert_eq!(MetricsSettings::new().temporality, Temporality::Cumulative);
    assert_eq!(MetricsSettings::new().with_delta().temporality, Temporality::Delta);
    assert_eq!(MetricsSettings::new().with_low_memory().temporality, Temporality::LowMemory);
}

#[test]
fn invalid_header_is_fatal() {
    let builder = Otlp::builder(grpc_dest())
        .with_header("bad key".to_string(), "value".to_string());
    match builder.with_logs(None) {
        Err(ConfigError::InvalidHeader(key)) => assert_eq!(key, "bad key"),
        other => panic!("expected a header error, got {:?}", other.map(|_| ())),
    }
}

#[test]
fn first_invalid_header_is_reported() {
    let builder = Otlp::builder(grpc_dest())
        .with_header("authorization".to_string(), "token".to_string())
        .with_header("second bad".to_string(), "value".to_string())
        .with_header("third bad".to_string(), "value".to_string());
    match builder.with_trace(None, TraceSettings::new(0)) {
        Err(ConfigError::InvalidHeader(key)) => assert_eq!(key, "second bad"),
        other => panic!("expected a header error, got {:?}", other.map(|_| ())),
    }
}

#[test]
fn valid_header_is_accepted() {
    in_runtime(|| {
        let mut otlp = Otlp::builder(grpc_dest())
            .with_header("authorization".to_string(), "token".to_string())
            .with_timeout(2_000)
            .with_compression(false)
            .with_logs(None)
            .expect("enable logs")
            .finish();
        assert!(otlp.logs_enabled());
        let _ = otlp.shutdown(50);
    });
}

#[test]
fn exporter_build_failure_is_reported() {
    in_runtime(|| {
        let dest = Destination {
            protocol: Protocol::Grpc,
            url: "::not a uri::".to_string(),
        };
        match Otlp::builder(dest).with_logs(None) {
            Err(ConfigError::ExporterBuild(_)) => {}
            other => panic!("expected a build error, got {:?}", other.map(|_| ())),
        }
    });
}

#[test]
fn datadog_protocol_is_traces_only() {
    let dest = || Destination {
        protocol: Protocol::DatadogAgent,
        url: "http://localhost:8126".to_string(),
    };
    match Otlp::builder(dest()).with_logs(None) {
        Err(ConfigError::UnsupportedProtocol) => {}
        other => panic!("logs over the agent protocol must fail, got {:?}", other.map(|_| ())),
    }
    match Otlp::builder(dest()).with_metrics(None, MetricsSettings::new()) {
        Err(ConfigError::UnsupportedProtocol) => {}
        other => panic!("metrics over the agent protocol must fail, got {:?}", other.map(|_| ())),
    }
    let mut otlp = Otlp::builder(dest())
        .with_trace(None, TraceSettings::new(1_000_000))
        .expect("traces over the agent protocol")
        .finish();
    assert!(otlp.trace_enabled());
    let _ = otlp.shutdown(50);
}

#[test]
fn http_exporters_build() {
    for protocol in [Protocol::HttpBinary, Protocol::HttpJson] {
        let mut otlp = Otlp::builder(http_dest(protocol))
            .with_header("authorization".to_string(), "token".to_string())
            .with_logs(None)
            .expect("enable logs")
            .with_trace(None, TraceSettings::new(500_000).with_respect_parent_sampling(false))
            .expect("enable trace")
            .with_metrics(None, MetricsSettings::new().with_delta())
            .expect("enable metrics")
            .finish();
        assert!(otlp.logs_enabled() && otlp.trace_enabled() && otlp.metrics_enabled());
        let _ = otlp.shutdown(50);
    }
}

#[test]
fn attributes_flow_into_providers() {
    in_runtime(|| {
        let attrs = otlp_setup::builder::Attributes::builder()
            .with_attr("service.name", opentelemetry::Value::from("suite"))
            .with_attr("service.instance", opentelemetry::Value::from(7i64))
            .finish();
        let mut otlp = Otlp::builder(grpc_dest())
            .with_logs(Some(&attrs))
            .expect("enable logs")
            .with_trace(Some(&attrs), TraceSettings::new(1_000_000))
            .expect("enable trace")
            .with_metrics(Some(&attrs), MetricsSettings::new())
            .expect("enable metrics")
            .finish();
        assert!(otlp.logs_enabled() && otlp.trace_enabled() && otlp.metrics_enabled());
        let _ = otlp.shutdown(50);
    });
}
