//! Tests of the formatted records' fields: merging, spans, severity.

use mozlog::{
    ContextFrame, FieldMap, FieldValue, Level, LogEvent, MozLogFormatLayer, NoFallback,
};

const TEST_TIMESTAMP: i64 = 1_600_000_000_000_000_000;

fn test_layer() -> MozLogFormatLayer<NoFallback> {
    MozLogFormatLayer::<NoFallback>::new("test-logger".to_string(), 1234, "test-host".to_string())
}

fn frame(name: &str, fields: Vec<(&str, FieldValue)>) -> ContextFrame {
    let mut map = FieldMap::new();
    for (k, v) in fields {
        map.insert(k.to_string(), v);
    }
    ContextFrame::new(name.to_string(), map)
}

fn event(level: Level, fields: Vec<(&str, FieldValue)>) -> LogEvent {
    let mut map = FieldMap::new();
    for (k, v) in fields {
        map.insert(k.to_string(), v);
    }
    LogEvent::new(level, map)
}

fn format_to_json(
    layer: &MozLogFormatLayer<NoFallback>,
    ev: &LogEvent,
    frames: &Vec<ContextFrame>,
) -> Vec<serde_json::Value> {
    layer
        .format_event(ev, frames, TEST_TIMESTAMP)
        .iter()
        .map(|line| {
            assert!(line.ends_with('\n'), "every record line is newline-terminated");
            serde_json::from_str(line.trim_end()).expect("bad JSON in log line")
        })
        .collect()
}

fn fields_of(record: &serde_json::Value) -> &serde_json::Map<String, serde_json::Value> {
    record
        .get("Fields")
        .expect("record has a Fields object")
        .as_object()
        .expect("Fields is an object")
}

#[test]
fn test_format() {
    let layer = test_layer();
    let ev = event(
        Level::Info,
        vec![
            ("type", FieldValue::Str("test".to_string())),
            (
                "message",
                FieldValue::Str("simple event without a parent span".to_string()),
            ),
        ],
    );
    let events = format_to_json(&layer, &ev, &vec![]);

    assert!(!events.is_empty(), "There should be at least one event");
    let record = &events[0];
    assert_eq!(record.get("Type").unwrap().as_str().unwrap(), "test");
    assert_eq!(record.get("Logger").unwrap().as_str().unwrap(), "test-logger");
    assert_eq!(record.get("EnvVersion").unwrap().as_str().unwrap(), "2.0");
    assert_eq!(record.get("Severity").unwrap().as_u64().unwrap(), 5);
    let fields = fields_of(record);
    assert_eq!(fields.len(), 2, "exactly the message and spans fields");
    assert_eq!(
        fields.get("message").unwrap().as_str().unwrap(),
        "simple event without a parent span"
    );
    assert_eq!(fields.get("spans").unwrap().as_str().unwrap(), "");

    assert!(record.get("Pid").unwrap().as_u64().unwrap() > 0, "Should have a positive PID");
    assert_ne!(
        record.get("Hostname").unwrap().as_str().unwrap(),
        "",
        "Should have a non-empty hostname"
    );

    let gigaseconds = record.get("Timestamp").unwrap().as_i64().unwrap() / i64::pow(10, 18);
    assert!(
        (1..=4).contains(&gigaseconds),
        "Should have a timestamp in this century"
    );
}

#[test]
fn test_log_level_to_severity() {
    let layer = test_layer();
    let cases = vec![
        (Level::Error, "error", 3),
        (Level::Warn, "warn", 4),
        (Level::Info, "info", 5),
        (Level::Debug, "debug", 6),
        (Level::Trace, "trace", 7),
    ];
    for (level, msg, severity) in cases {
        let ev = event(level, vec![("message", FieldValue::Str(msg.to_string()))]);
        let events = format_to_json(&layer, &ev, &vec![]);
        assert_eq!(events.len(), 1);
        assert_eq!(events[0].get("Severity").unwrap().as_u64().unwrap(), severity);
        assert_eq!(
            fields_of(&events[0]).get("message").unwrap().as_str().unwrap(),
            msg
        );
    }
}

#[test]
fn test_span_is_listed() {
    let layer = test_layer();
    let ev = event(Level::Info, vec![("message", FieldValue::Str("test_event".to_string()))]);
    let frames = vec![frame("test_span", vec![])];
    let events = format_to_json(&layer, &ev, &frames);

    assert!(!events.is_empty());
    let fields = fields_of(&events[0]);
    assert_eq!(fields.len(), 2);
    assert_eq!(fields.get("message").unwrap().as_str().unwrap(), "test_event");
    assert_eq!(fields.get("spans").unwrap().as_str().unwrap(), "test_span");
}

#[test]
fn test_nested_spans() {
    let layer = test_layer();
    let span1 = frame("test_span_1", vec![]);
    let span2 = frame("test_span_2", vec![]);

    let cases: Vec<(Vec<ContextFrame>, &str, &str)> = vec![
        (vec![], "event at nesting 0", ""),
        (vec![span1.clone()], "event at nesting 1", "test_span_1"),
        (
            vec![span1.clone(), span2.clone()],
            "event at nesting 2",
            "test_span_1,test_span_2",
        ),
    ];
    for (frames, msg, spans) in cases {
        let ev = event(Level::Info, vec![("message", FieldValue::Str(msg.to_string()))]);
        let events = format_to_json(&layer, &ev, &frames);
        assert!(!events.is_empty());
        let fields = fields_of(&events[0]);
        assert_eq!(fields.len(), 2);
        assert_eq!(fields.get("message").unwrap().as_str().unwrap(), msg);
        assert_eq!(fields.get("spans").unwrap().as_str().unwrap(), spans);
    }
}

#[test]
fn events_inherit_fields() {
    let layer = test_layer();
    let frames = vec![frame(
        "test_span",
        vec![("color", FieldValue::Str("red".to_string()))],
    )];
    let ev = event(Level::Info, vec![("message", FieldValue::Str("test_event".to_string()))]);
    let events = format_to_json(&layer, &ev, &frames);

    assert!(!events.is_empty());
    let fields = fields_of(&events[0]);
    assert_eq!(fields.len(), 3);
    assert_eq!(fields.get("message").unwrap().as_str().unwrap(), "test_event");
    assert_eq!(fields.get("spans").unwrap().as_str().unwrap(), "test_span");
    assert_eq!(fields.get("color").unwrap().as_str().unwrap(), "red");
}

#[test]
fn innermost_value_wins() {
    let layer = test_layer();
    let frames = vec![
        frame(
            "outer",
            vec![
                ("a", FieldValue::Int(1)),
                ("b", FieldValue::Int(1)),
                ("c", FieldValue::Int(1)),
            ],
        ),
        frame(
            "inner",
            vec![("b", FieldValue::Int(2)), ("c", FieldValue::Int(2))],
        ),
    ];
    let ev = event(
        Level::Info,
        vec![
            ("c", FieldValue::Int(3)),
            ("message", FieldValue::Str("test_event".to_string())),
        ],
    );
    let events = format_to_json(&layer, &ev, &frames);

    assert!(!events.is_empty());
    let fields = fields_of(&events[0]);
    assert_eq!(fields.len(), 5);
    assert_eq!(fields.get("message").unwrap().as_str().unwrap(), "test_event");
    assert_eq!(fields.get("spans").unwrap().as_str().unwrap(), "outer,inner");
    assert_eq!(fields.get("a").unwrap().as_i64().unwrap(), 1);
    assert_eq!(fields.get("b").unwrap().as_i64().unwrap(), 2);
    assert_eq!(fields.get("c").unwrap().as_i64().unwrap(), 3);
}

#[test]
fn event_field_beats_frame_field() {
    let layer = test_layer();
    let frames = vec![frame("outer", vec![("x", FieldValue::Int(2))])];
    let ev = event(Level::Info, vec![("x", FieldValue::Int(1))]);
    let events = format_to_json(&layer, &ev, &frames);
    let fields = fields_of(&events[0]);
    assert_eq!(fields.get("x").unwrap().as_i64().unwrap(), 1);
}

#[test]
fn severity_mapping_is_total_and_exact() {
    assert_eq!(Level::Error.severity(), 3);
    assert_eq!(Level::Warn.severity(), 4);
    assert_eq!(Level::Info.severity(), 5);
    assert_eq!(Level::Debug.severity(), 6);
    assert_eq!(Level::Trace.severity(), 7);
}
