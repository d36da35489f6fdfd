//! Tests of the request-lifecycle tracker and its `request.summary`
//! emission.

use mozlog::{
    Level, MozLogFormatLayer, NoFallback, RequestError, RequestSpan, RequestState,
};

const TEST_TIMESTAMP: i64 = 1_600_000_000_000_000_000;

fn test_layer() -> MozLogFormatLayer<NoFallback> {
    MozLogFormatLayer::<NoFallback>::new("test-logger".to_string(), 1234, "test-host".to_string())
}

fn summary_record(mut span: RequestSpan) -> serde_json::Value {
    let layer = test_layer();
    let (frame, event) = span.emit_summary();
    assert_eq!(span.state(), RequestState::Emitted);
    let lines = layer.format_event(&event, &vec![frame], TEST_TIMESTAMP);
    assert_eq!(lines.len(), 1, "exactly one record per request summary");
    serde_json::from_str(lines[0].trim_end()).expect("bad JSON in log line")
}

fn fields_of(record: &serde_json::Value) -> &serde_json::Map<String, serde_json::Value> {
    record.get("Fields").unwrap().as_object().unwrap()
}

#[test]
fn test_it_logs_requests() {
    for status in [200u16, 400, 500] {
        let path = format!("/{}", status);
        let mut span = RequestSpan::new("GET".to_string(), path, "rid-1".to_string(), None);
        assert_eq!(span.state(), RequestState::Created);
        span.complete_success(2, 2_000_000, status, None);
        assert_eq!(span.state(), RequestState::Completed);
        let record = summary_record(span);
        assert_eq!(record.get("Severity").unwrap().as_u64().unwrap(), 5);
        assert_eq!(
            record.get("Type").unwrap().as_str().unwrap(),
            "request.summary"
        );
        assert_eq!(
            fields_of(&record).get("code").unwrap().as_u64().unwrap(),
            status as u64
        );
    }
}

#[test]
fn test_request_summary_has_recommended_fields() {
    let mut span = RequestSpan::new(
        "GET".to_string(),
        "/200".to_string(),
        "rid-42".to_string(),
        Some("A Test Client".to_string()),
    );
    span.complete_success(3, 3_141_592, 200, None);
    let record = summary_record(span);

    assert_eq!(record.get("Type").unwrap().as_str().unwrap(), "request.summary");
    assert_eq!(record.get("Logger").unwrap().as_str().unwrap(), "test-logger");
    assert_eq!(record.get("EnvVersion").unwrap().as_str().unwrap(), "2.0");
    assert_eq!(record.get("Severity").unwrap().as_u64().unwrap(), 5);

    let fields = fields_of(&record);
    assert_eq!(fields.len(), 8, "Should have the expected fields");
    assert_eq!(fields.get("agent").unwrap().as_str().unwrap(), "A Test Client");
    assert_eq!(fields.get("path").unwrap().as_str().unwrap(), "/200");
    assert_eq!(fields.get("method").unwrap().as_str().unwrap(), "GET");
    assert_eq!(fields.get("code").unwrap().as_u64().unwrap(), 200);
    assert_eq!(fields.get("spans").unwrap().as_str().unwrap(), "request");
    assert_eq!(
        fields.get("rid").unwrap().as_str().unwrap(),
        "rid-42",
        "Should have a request id"
    );
    assert_eq!(
        fields.get("t").unwrap().as_u64().unwrap(),
        3,
        "should have request time in milliseconds"
    );
    assert_eq!(
        fields.get("t_ns").unwrap().as_u64().unwrap(),
        3_141_592,
        "should have request time in nanoseconds"
    );
}

#[test]
fn test_it_logs_controlled_errors() {
    // The handler failed, but a response object still exists with the
    // error attached: the success path runs the error annotation.
    let mut span = RequestSpan::new("GET".to_string(), "/".to_string(), "rid-e".to_string(), None);
    span.complete_success(
        1,
        1_000_000,
        500,
        Some(RequestError::new(500, "test error".to_string())),
    );
    let record = summary_record(span);

    assert_eq!(
        record.get("Severity").unwrap().as_u64().unwrap(),
        5,
        "errors are still logged with INFO level request.summary"
    );
    assert_eq!(record.get("Type").unwrap().as_str().unwrap(), "request.summary");
    let fields = fields_of(&record);
    assert_eq!(fields.get("code").unwrap().as_u64().unwrap(), 500);
    assert_eq!(fields.get("errno").unwrap().as_u64().unwrap(), 1);
    assert_eq!(fields.get("msg").unwrap().as_str().unwrap(), "test error");
    assert!(fields.get("t").is_some());
    assert!(fields.get("t_ns").is_some());
}

#[test]
fn pipeline_failure_has_no_elapsed_fields() {
    // The pipeline itself failed before any response existed: the
    // failure path annotates the error and records no elapsed time.
    let mut span = RequestSpan::new("GET".to_string(), "/boom".to_string(), "rid-f".to_string(), None);
    span.complete_failure(RequestError::new(500, "connection reset".to_string()));
    let record = summary_record(span);

    assert_eq!(record.get("Severity").unwrap().as_u64().unwrap(), 5);
    let fields = fields_of(&record);
    assert_eq!(fields.get("errno").unwrap().as_u64().unwrap(), 1);
    assert_eq!(fields.get("code").unwrap().as_u64().unwrap(), 500);
    assert_eq!(fields.get("msg").unwrap().as_str().unwrap(), "connection reset");
    assert!(fields.get("t").is_none());
    assert!(fields.get("t_ns").is_none());
}

#[test]
fn success_without_error_keeps_status_code() {
    let mut span = RequestSpan::new("GET".to_string(), "/ok".to_string(), "rid-s".to_string(), None);
    span.complete_success(0, 12_345, 204, None);
    let record = summary_record(span);
    let fields = fields_of(&record);
    assert_eq!(fields.get("code").unwrap().as_u64().unwrap(), 204);
    assert!(fields.get("errno").is_none());
    assert!(fields.get("msg").is_none());
    assert_eq!(fields.get("t").unwrap().as_u64().unwrap(), 0);
}
