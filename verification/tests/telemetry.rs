use request_telemetry::duration::ElapsedTime;
use request_telemetry::metrics_config::MetricsConfig;
use request_telemetry::otel_metrics::build_observation;
use request_telemetry::otel_metrics::OpenTelemetryMetricsProvider;
use request_telemetry::status::error_code_to_status_code;
use request_telemetry::status::status_code_to_class;
use request_telemetry::tags::RequestOutcome;
use request_telemetry::tags::RequestSummary;
use request_telemetry::tags::Tag;
use request_telemetry::tags::TagValue;

fn tag_value<'a>(tags: &'a [Tag], key: &str) -> &'a TagValue {
    &tags.iter().find(|t| t.key == key).expect("tag missing").value
}

#[test]
fn default_endpoint_is_local_collector() {
    let cfg = MetricsConfig::new();
    assert_eq!(cfg.otlp_endpoint, "http://localhost:4318/v1/metrics");
}

#[test]
fn with_otlp_endpoint_overrides() {
    let cfg = MetricsConfig::new().with_otlp_endpoint("http://collector:4318/v1/metrics");
    assert_eq!(cfg.otlp_endpoint, "http://collector:4318/v1/metrics");
}

#[test]
fn error_code_mapping_success_is_ok() {
    assert_eq!(error_code_to_status_code(0), 200);
}

#[test]
fn error_code_mapping_table() {
    assert_eq!(error_code_to_status_code(13), 403);
    assert_eq!(error_code_to_status_code(18), 401);
    assert_eq!(error_code_to_status_code(26), 404);
    assert_eq!(error_code_to_status_code(59), 404);
    assert_eq!(error_code_to_status_code(50), 504);
    assert_eq!(error_code_to_status_code(9999), 500);
    assert_eq!(error_code_to_status_code(-1), 500);
}

#[test]
fn status_class_buckets() {
    assert_eq!(status_code_to_class(100), "1xx");
    assert_eq!(status_code_to_class(204), "2xx");
    assert_eq!(status_code_to_class(302), "3xx");
    assert_eq!(status_code_to_class(404), "4xx");
    assert_eq!(status_code_to_class(503), "5xx");
}

#[test]
fn status_class_catch_all_outside_protocol_range() {
    assert_eq!(status_code_to_class(0), "6xx");
    assert_eq!(status_code_to_class(99), "6xx");
    assert_eq!(status_code_to_class(600), "6xx");
    assert_eq!(status_code_to_class(65535), "6xx");
}

#[test]
fn duration_floor_to_whole_milliseconds() {
    let cases: Vec<(u64, u32, u64)> = vec![
        (0, 0, 0),
        (0, 999_999, 0),
        (0, 1_000_000, 1),
        (0, 999_999_999, 999),
        (1, 999_999, 1000),
        (2, 500_000_000, 2500),
    ];
    for (secs, nanos, expected) in cases {
        let obs = build_observation(
            ElapsedTime { secs, nanos },
            &None,
            &RequestOutcome::Success,
            "c".to_string(),
        );
        assert_eq!(obs.value_ms, expected);
    }
}

#[test]
fn success_observation_value_and_tags() {
    let request = Some(RequestSummary {
        operation: "find".to_string(),
        database: Some("admin".to_string()),
    });
    let obs = build_observation(
        ElapsedTime { secs: 2, nanos: 500_000_000 },
        &request,
        &RequestOutcome::Success,
        "users".to_string(),
    );
    assert_eq!(obs.name, "RequestDurationMs");
    assert_eq!(obs.value_ms, 2500);
    assert_eq!(obs.tags.len(), 9);
    assert_eq!(*tag_value(&obs.tags, "ErrorCode"), TagValue::Int(0));
    assert_eq!(*tag_value(&obs.tags, "StatusCode"), TagValue::Int(200));
    assert_eq!(
        *tag_value(&obs.tags, "StatusCodeClass"),
        TagValue::Text("2xx".to_string())
    );
    assert_eq!(
        *tag_value(&obs.tags, "StatusText"),
        TagValue::Text("OK".to_string())
    );
    assert_eq!(
        *tag_value(&obs.tags, "CollectionName"),
        TagValue::Text("users".to_string())
    );
    assert_eq!(
        *tag_value(&obs.tags, "DatabaseName"),
        TagValue::Text("admin".to_string())
    );
    assert_eq!(
        *tag_value(&obs.tags, "Operation"),
        TagValue::Text("find".to_string())
    );
    assert_eq!(
        *tag_value(&obs.tags, "Authentication"),
        TagValue::Text("SASL".to_string())
    );
    assert_eq!(
        *tag_value(&obs.tags, "Protocol"),
        TagValue::Text("TCP".to_string())
    );
}

#[test]
fn failure_code_13_maps_to_forbidden() {
    let obs = build_observation(
        ElapsedTime { secs: 0, nanos: 0 },
        &None,
        &RequestOutcome::Failure { code: 13, retries: 2 },
        "users".to_string(),
    );
    assert_eq!(*tag_value(&obs.tags, "ErrorCode"), TagValue::Int(13));
    assert_eq!(*tag_value(&obs.tags, "StatusCode"), TagValue::Int(403));
    assert_eq!(
        *tag_value(&obs.tags, "StatusCodeClass"),
        TagValue::Text("4xx".to_string())
    );
    assert_eq!(
        *tag_value(&obs.tags, "StatusText"),
        TagValue::Text("Forbidden".to_string())
    );
}

#[test]
fn missing_request_degrades_to_defaults() {
    let obs = build_observation(
        ElapsedTime { secs: 0, nanos: 0 },
        &None,
        &RequestOutcome::Success,
        "".to_string(),
    );
    assert_eq!(
        *tag_value(&obs.tags, "Operation"),
        TagValue::Text("unknown".to_string())
    );
    assert_eq!(
        *tag_value(&obs.tags, "DatabaseName"),
        TagValue::Text("".to_string())
    );
}

#[test]
fn unresolved_database_degrades_to_empty() {
    let request = Some(RequestSummary {
        operation: "insert".to_string(),
        database: None,
    });
    let obs = build_observation(
        ElapsedTime { secs: 0, nanos: 0 },
        &request,
        &RequestOutcome::Success,
        "items".to_string(),
    );
    assert_eq!(
        *tag_value(&obs.tags, "Operation"),
        TagValue::Text("insert".to_string())
    );
    assert_eq!(
        *tag_value(&obs.tags, "DatabaseName"),
        TagValue::Text("".to_string())
    );
}

#[test]
fn tag_order_is_fixed() {
    let obs = build_observation(
        ElapsedTime { secs: 0, nanos: 0 },
        &None,
        &RequestOutcome::Success,
        "c".to_string(),
    );
    let keys: Vec<&str> = obs.tags.iter().map(|t| t.key.as_str()).collect();
    assert_eq!(
        keys,
        vec![
            "Authentication",
            "CollectionName",
            "Protocol",
            "DatabaseName",
            "ErrorCode",
            "Operation",
            "StatusCode",
            "StatusCodeClass",
            "StatusText",
        ]
    );
}

#[test]
fn distinct_inputs_give_independent_observations() {
    let mut observations = Vec::new();
    for i in 0..10u64 {
        let obs = build_observation(
            ElapsedTime { secs: i, nanos: 0 },
            &None,
            &RequestOutcome::Failure { code: i as i32, retries: 0 },
            format!("collection{}", i),
        );
        observations.push(obs);
    }
    for (i, obs) in observations.iter().enumerate() {
        assert_eq!(obs.value_ms, (i as u64) * 1000);
        assert_eq!(
            *tag_value(&obs.tags, "ErrorCode"),
            TagValue::Int(i as i64)
        );
        assert_eq!(
            *tag_value(&obs.tags, "CollectionName"),
            TagValue::Text(format!("collection{}", i))
        );
    }
}

#[test]
fn init_with_malformed_endpoint_fails_and_emit_degrades() {
    let cfg = MetricsConfig::new().with_otlp_endpoint("://not a valid uri");
    let result = cfg.init_metrics();
    assert!(result.is_err());
    let err = result.unwrap_err();
    assert!(err.invalid_configuration);
    // With nothing installed, a provider falls back to a no-op source and
    // emitting must degrade silently instead of crashing.
    let provider = OpenTelemetryMetricsProvider::new();
    let start = std::time::Instant::now();
    provider.emit_request_event(
        &start,
        &None,
        &RequestOutcome::Success,
        "users".to_string(),
    );
}

#[test]
fn init_with_wellformed_endpoint_succeeds_and_emit_records() {
    let cfg = MetricsConfig::new();
    let result = cfg.init_metrics();
    assert!(result.is_ok());
    let provider = OpenTelemetryMetricsProvider::new();
    let start = std::time::Instant::now();
    let request = Some(RequestSummary {
        operation: "find".to_string(),
        database: Some("admin".to_string()),
    });
    provider.emit_request_event(
        &start,
        &request,
        &RequestOutcome::Failure { code: 13, retries: 1 },
        "users".to_string(),
    );
}
