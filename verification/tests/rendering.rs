//! Round-trip tests of the JSON framing: escaping, numbers, booleans
//! and nulls survive serialization exactly.

use mozlog::{FieldMap, FieldValue, Level, LogEvent, MozLogFormatLayer, NoFallback};

fn format_one(ev: &LogEvent, timestamp: i64) -> serde_json::Value {
    let layer = MozLogFormatLayer::<NoFallback>::new(
        "test-logger".to_string(),
        1234,
        "test-host".to_string(),
    );
    let lines = layer.format_event(ev, &vec![], timestamp);
    assert_eq!(lines.len(), 1);
    assert!(lines[0].ends_with('\n'));
    serde_json::from_str(lines[0].trim_end()).expect("bad JSON in log line")
}

fn fields_of(record: &serde_json::Value) -> &serde_json::Map<String, serde_json::Value> {
    record.get("Fields").unwrap().as_object().unwrap()
}

#[test]
fn string_escaping_round_trips() {
    let tricky = "quote \" backslash \\ newline \n tab \t return \r control \u{1} end";
    let mut map = FieldMap::new();
    map.insert("message".to_string(), FieldValue::Str(tricky.to_string()));
    map.insert("type".to_string(), FieldValue::Str("escape \"test\"".to_string()));
    let record = format_one(&LogEvent::new(Level::Info, map), 1_600_000_000_000_000_000);

    assert_eq!(record.get("Type").unwrap().as_str().unwrap(), "escape \"test\"");
    assert_eq!(fields_of(&record).get("message").unwrap().as_str().unwrap(), tricky);
}

#[test]
fn non_ascii_text_round_trips() {
    let text = "Grüße aus München — 東京 ✓";
    let mut map = FieldMap::new();
    map.insert("message".to_string(), FieldValue::Str(text.to_string()));
    let record = format_one(&LogEvent::new(Level::Info, map), 1_600_000_000_000_000_000);
    assert_eq!(fields_of(&record).get("message").unwrap().as_str().unwrap(), text);
}

#[test]
fn numbers_booleans_and_nulls_render_exactly() {
    let mut map = FieldMap::new();
    map.insert("neg".to_string(), FieldValue::Int(-5));
    map.insert("zero".to_string(), FieldValue::Int(0));
    map.insert("big".to_string(), FieldValue::UInt(u64::MAX));
    map.insert("min".to_string(), FieldValue::Int(i64::MIN));
    map.insert("yes".to_string(), FieldValue::Bool(true));
    map.insert("no".to_string(), FieldValue::Bool(false));
    map.insert("nothing".to_string(), FieldValue::Null);
    let record = format_one(&LogEvent::new(Level::Warn, map), 1_600_000_000_000_000_000);

    let fields = fields_of(&record);
    assert_eq!(fields.get("neg").unwrap().as_i64().unwrap(), -5);
    assert_eq!(fields.get("zero").unwrap().as_i64().unwrap(), 0);
    assert_eq!(fields.get("big").unwrap().as_u64().unwrap(), u64::MAX);
    assert_eq!(fields.get("min").unwrap().as_i64().unwrap(), i64::MIN);
    assert_eq!(fields.get("yes").unwrap().as_bool().unwrap(), true);
    assert_eq!(fields.get("no").unwrap().as_bool().unwrap(), false);
    assert!(fields.get("nothing").unwrap().is_null());
    assert_eq!(record.get("Severity").unwrap().as_u64().unwrap(), 4);
}

#[test]
fn negative_timestamp_renders() {
    let map = FieldMap::new();
    let record = format_one(&LogEvent::new(Level::Info, map), -1);
    assert_eq!(record.get("Timestamp").unwrap().as_i64().unwrap(), -1);
}

#[test]
fn escaped_keys_round_trip() {
    let mut map = FieldMap::new();
    map.insert("weird \"key\"\n".to_string(), FieldValue::Int(7));
    let record = format_one(&LogEvent::new(Level::Info, map), 0);
    let fields = fields_of(&record);
    assert_eq!(fields.get("weird \"key\"\n").unwrap().as_i64().unwrap(), 7);
}
