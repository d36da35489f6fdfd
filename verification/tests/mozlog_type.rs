//! Tests of type resolution and the missing-type policy.

use mozlog::{
    FieldMap, FieldValue, Level, LogEvent, MozLogFormatLayer, NoFallback, TypeFallback,
};

const TEST_TIMESTAMP: i64 = 1_600_000_000_000_000_000;

struct FixedFallback;

impl TypeFallback for FixedFallback {
    fn unknown_type(&self, _event: &LogEvent) -> Option<String> {
        Some("fallback-type".to_string())
    }
}

fn message_event(msg: &str) -> LogEvent {
    let mut map = FieldMap::new();
    map.insert("message".to_string(), FieldValue::Str(msg.to_string()));
    LogEvent::new(Level::Info, map)
}

fn parse_lines(lines: Vec<String>) -> Vec<serde_json::Value> {
    lines
        .iter()
        .map(|line| serde_json::from_str(line.trim_end()).expect("bad JSON in log line"))
        .collect()
}

fn fields_of(record: &serde_json::Value) -> &serde_json::Map<String, serde_json::Value> {
    record.get("Fields").unwrap().as_object().unwrap()
}

#[test]
fn test_type_can_be_required() {
    let layer = MozLogFormatLayer::<NoFallback>::new(
        "test-logger".to_string(),
        1234,
        "test-host".to_string(),
    )
    .with_type_required_for_level(Some(Level::Info));
    let ev = message_event("no type");
    let events = parse_lines(layer.format_event(&ev, &vec![], TEST_TIMESTAMP));

    assert_eq!(
        events.len(),
        2,
        "There should be the emitted event and an extra one for the error"
    );

    let synth = &events[0];
    assert_eq!(
        synth.get("Type").unwrap().as_str().unwrap(),
        "mozlog.missing-type"
    );
    assert_eq!(synth.get("Severity").unwrap().as_u64().unwrap(), 3);
    let synth_fields = fields_of(synth);
    assert_eq!(synth_fields.len(), 4);
    assert_eq!(
        synth_fields.get("message").unwrap().as_str().unwrap(),
        "events with level INFO require a type to be set"
    );
    assert_eq!(
        synth_fields.get("original_message").unwrap().as_str().unwrap(),
        "no type"
    );
    assert_eq!(synth_fields.get("spans").unwrap().as_str().unwrap(), "");
    assert_eq!(
        synth_fields.get("original_level").unwrap().as_str().unwrap(),
        "INFO"
    );

    let main = &events[1];
    assert_eq!(main.get("Type").unwrap().as_str().unwrap(), "<unknown>");
    let main_fields = fields_of(main);
    assert_eq!(main_fields.len(), 2);
    assert_eq!(main_fields.get("message").unwrap().as_str().unwrap(), "no type");
    assert_eq!(main_fields.get("spans").unwrap().as_str().unwrap(), "");
}

#[test]
fn test_unknown_type_can_be_filled_in() {
    let layer = MozLogFormatLayer::<NoFallback>::new(
        "test-logger".to_string(),
        1234,
        "test-host".to_string(),
    )
    .with_unknown_type_handler(FixedFallback);
    let ev = message_event("no type");
    let events = parse_lines(layer.format_event(&ev, &vec![], TEST_TIMESTAMP));

    assert!(!events.is_empty());
    assert_eq!(events.len(), 1);
    assert_eq!(events[0].get("Type").unwrap().as_str().unwrap(), "fallback-type");
    let fields = fields_of(&events[0]);
    assert_eq!(fields.len(), 2);
    assert_eq!(fields.get("message").unwrap().as_str().unwrap(), "no type");
    assert_eq!(fields.get("spans").unwrap().as_str().unwrap(), "");
}

#[test]
fn test_fallback_types_dont_trigger_an_error() {
    let layer = MozLogFormatLayer::<NoFallback>::new(
        "test-logger".to_string(),
        1234,
        "test-host".to_string(),
    )
    .with_type_required_for_level(Some(Level::Info))
    .with_unknown_type_handler(FixedFallback);
    let ev = message_event("no type");
    let events = parse_lines(layer.format_event(&ev, &vec![], TEST_TIMESTAMP));

    assert_eq!(events.len(), 1);
    assert_eq!(events[0].get("Type").unwrap().as_str().unwrap(), "fallback-type");
    assert_eq!(events[0].get("Severity").unwrap().as_u64().unwrap(), 5);
}

#[test]
fn explicit_type_beats_fallback_and_legacy_key() {
    let layer = MozLogFormatLayer::<NoFallback>::new(
        "test-logger".to_string(),
        1234,
        "test-host".to_string(),
    )
    .with_unknown_type_handler(FixedFallback);
    let mut map = FieldMap::new();
    map.insert("type".to_string(), FieldValue::Str("primary".to_string()));
    map.insert("r#type".to_string(), FieldValue::Str("legacy".to_string()));
    let ev = LogEvent::new(Level::Info, map);
    let events = parse_lines(layer.format_event(&ev, &vec![], TEST_TIMESTAMP));
    assert_eq!(events.len(), 1);
    assert_eq!(events[0].get("Type").unwrap().as_str().unwrap(), "primary");
    // Neither type key survives into the rendered fields.
    let fields = fields_of(&events[0]);
    assert_eq!(fields.len(), 1);
    assert!(fields.get("spans").is_some());
}

#[test]
fn legacy_type_key_is_used_when_primary_is_absent() {
    let layer = MozLogFormatLayer::<NoFallback>::new(
        "test-logger".to_string(),
        1234,
        "test-host".to_string(),
    );
    let mut map = FieldMap::new();
    map.insert("r#type".to_string(), FieldValue::Str("legacy".to_string()));
    let ev = LogEvent::new(Level::Info, map);
    let events = parse_lines(layer.format_event(&ev, &vec![], TEST_TIMESTAMP));
    assert_eq!(events.len(), 1);
    assert_eq!(events[0].get("Type").unwrap().as_str().unwrap(), "legacy");
}

#[test]
fn urgency_gates_the_policy() {
    // With the policy at info, a debug event without a type draws no
    // synthetic record; a warn event does.
    let layer = MozLogFormatLayer::<NoFallback>::new(
        "test-logger".to_string(),
        1234,
        "test-host".to_string(),
    )
    .with_type_required_for_level(Some(Level::Info));

    let mut debug_map = FieldMap::new();
    debug_map.insert("message".to_string(), FieldValue::Str("quiet".to_string()));
    let debug_ev = LogEvent::new(Level::Debug, debug_map);
    assert_eq!(layer.format_event(&debug_ev, &vec![], TEST_TIMESTAMP).len(), 1);

    let mut warn_map = FieldMap::new();
    warn_map.insert("message".to_string(), FieldValue::Str("loud".to_string()));
    let warn_ev = LogEvent::new(Level::Warn, warn_map);
    assert_eq!(layer.format_event(&warn_ev, &vec![], TEST_TIMESTAMP).len(), 2);
}

#[test]
fn untyped_event_gets_the_sentinel_type() {
    // One event, no parent context, no explicit type: one record with
    // the sentinel type and an empty spans string.
    let layer = MozLogFormatLayer::<NoFallback>::new(
        "test-logger".to_string(),
        1234,
        "test-host".to_string(),
    );
    let ev = message_event("plain");
    let events = parse_lines(layer.format_event(&ev, &vec![], TEST_TIMESTAMP));
    assert_eq!(events.len(), 1);
    assert_eq!(events[0].get("Type").unwrap().as_str().unwrap(), "<unknown>");
    assert_eq!(fields_of(&events[0]).get("spans").unwrap().as_str().unwrap(), "");
}

#[test]
fn explicit_fallback_answer_is_used_directly() {
    let layer = MozLogFormatLayer::<NoFallback>::new(
        "test-logger".to_string(),
        1234,
        "test-host".to_string(),
    )
    .with_type_required_for_level(Some(Level::Info));
    let ev = message_event("no type");
    let events = parse_lines(layer.format_event_with(
        &ev,
        &vec![],
        TEST_TIMESTAMP,
        Some("answered".to_string()),
    ));
    assert_eq!(events.len(), 1);
    assert_eq!(events[0].get("Type").unwrap().as_str().unwrap(), "answered");
}
