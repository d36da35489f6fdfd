//! Every emitted line conforms to the fixed output schema: one JSON
//! object per line with the schema's keys, types and ranges.

use mozlog::{ContextFrame, FieldMap, FieldValue, Level, LogEvent, MozLogFormatLayer, NoFallback};

const TEST_TIMESTAMP: i64 = 1_600_000_000_000_000_000;

fn message_event(msg: &str) -> LogEvent {
    let mut map = FieldMap::new();
    map.insert("message".to_string(), FieldValue::Str(msg.to_string()));
    LogEvent::new(Level::Info, map)
}

fn check_schema(record: &serde_json::Value) {
    let obj = record.as_object().expect("record is a JSON object");
    assert_eq!(obj.len(), 8, "exactly the schema's top-level keys");
    assert!(record.get("Timestamp").unwrap().is_i64());
    assert!(record.get("Type").unwrap().is_string());
    assert!(record.get("Logger").unwrap().is_string());
    assert!(record.get("Hostname").unwrap().is_string());
    assert_eq!(record.get("EnvVersion").unwrap().as_str().unwrap(), "2.0");
    assert!(record.get("Pid").unwrap().as_u64().is_some());
    let severity = record.get("Severity").unwrap().as_u64().unwrap();
    assert!((3..=7).contains(&severity), "severity is a syslog level");
    let fields = record.get("Fields").unwrap().as_object().unwrap();
    assert!(fields.get("spans").unwrap().is_string(), "spans is always present");
}

#[test]
fn logger_matches_schema() {
    let layer = MozLogFormatLayer::<NoFallback>::new(
        "test-logger".to_string(),
        1234,
        "test-host".to_string(),
    );
    let span1 = ContextFrame::new("test_span_1".to_string(), FieldMap::new());
    let span2 = ContextFrame::new("test_span_2".to_string(), FieldMap::new());
    let emissions: Vec<(Vec<ContextFrame>, &str)> = vec![
        (vec![], "event at nesting 0"),
        (vec![span1.clone()], "event at nesting 1"),
        (vec![span1.clone(), span2.clone()], "event at nesting 2"),
    ];

    for (frames, msg) in emissions {
        let ev = message_event(msg);
        for line in layer.format_event(&ev, &frames, TEST_TIMESTAMP) {
            let record: serde_json::Value =
                serde_json::from_str(line.trim_end()).expect("bad JSON in log line");
            check_schema(&record);
        }
    }
}
