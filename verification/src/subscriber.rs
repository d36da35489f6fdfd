//! The event-formatting layer: field merging, type resolution with
//! policy enforcement, severity mapping and record assembly.
//!
//! One call to [`MozLogFormatLayer::format_event`] turns an event and
//! its enclosing context frames into one serialized record line, or
//! two when the missing-type policy adds a synthetic record; the
//! synthetic record always comes first. Writing the lines to a sink is
//! the caller's business: each line is written whole, and a failed
//! write is dropped, never surfaced.

use vstd::prelude::*;
use vstd::string::StringExecFns;

use crate::fields::{
    has_key, insert_key, lookup, remove_key, EntryView, FieldMap, FieldValue, FieldValueView,
};
use crate::level::{at_least_as_urgent, spec_level_name, spec_severity, Level};
use crate::merge::{merge_fields, merge_frames, spans_string, spec_spans, ContextFrame,
    ContextFrameView};
use crate::record::{render_record, MozLogMessage, MozLogMessageView};

verus! {

/// The mathematical model of a log event.
pub struct LogEventView {
    /// The event's level.
    pub level: Level,
    /// The event's own fields.
    pub fields: Seq<EntryView>,
}

/// One log event: a level and the event's own fields. An event exists
/// only for the duration of its emission; formatting consumes it into
/// one or two output records.
#[derive(Clone, Debug)]
pub struct LogEvent {
    /// The event's level.
    pub level: Level,
    /// The event's own fields, highest precedence in merging.
    pub fields: FieldMap,
}

impl View for LogEvent {
    type V = LogEventView;

    open spec fn view(&self) -> LogEventView {
        LogEventView { level: self.level, fields: self.fields@ }
    }
}

impl LogEvent {
    /// An event with the given level and fields.
    pub fn new(level: Level, fields: FieldMap) -> (r: LogEvent)
        ensures
            r@.level == level,
            r@.fields == fields@,
    {
        LogEvent { level, fields }
    }
}

/// A last-resort supplier of message types, consulted for events that
/// carry no type field. Implemented by users of the layer; nothing is
/// assumed about what an implementation returns.
pub trait TypeFallback {
    /// The type to use for `event`, or `None` to fall through to the
    /// `"<unknown>"` sentinel.
    fn unknown_type(&self, event: &LogEvent) -> Option<String>;
}

/// The trivial fallback: it never supplies a type.
pub struct NoFallback;

impl TypeFallback for NoFallback {
    fn unknown_type(&self, _event: &LogEvent) -> (r: Option<String>)
        ensures
            r is None,
    {
        None
    }
}

/// The mathematical model of a formatting layer's configuration.
pub struct LayerView {
    /// The logger name stamped on every record.
    pub name: Seq<char>,
    /// The hostname stamped on every record.
    pub hostname: Seq<char>,
    /// The process id stamped on every record.
    pub pid: int,
    /// The least-urgent level at which a missing type draws a
    /// synthetic policy record, if the policy is enabled.
    pub type_required_for_level: Option<Level>,
    /// Whether an unknown-type fallback handler is configured.
    pub has_handler: bool,
}

/// The string value of a type-carrying field, if the field is present
/// and string-valued.
pub open spec fn type_of_value(v: Option<FieldValueView>) -> Option<Seq<char>> {
    match v {
        Some(FieldValueView::Str(s)) => Some(s),
        _ => None,
    }
}

/// Resolution order for the message type: the primary field when
/// string-valued, else the legacy alternate field, else the fallback
/// handler's answer, else the `"<unknown>"` sentinel.
pub open spec fn spec_resolve_from(
    t: Option<Seq<char>>,
    rt: Option<Seq<char>>,
    fallback: Option<Seq<char>>,
) -> Seq<char> {
    if t is Some {
        t->0
    } else if rt is Some {
        rt->0
    } else if fallback is Some {
        fallback->0
    } else {
        "<unknown>"@
    }
}

/// The resolved type of an event with the given merged fields.
pub open spec fn spec_resolved_type(merged: Seq<EntryView>, fallback: Option<Seq<char>>) -> Seq<
    char,
> {
    spec_resolve_from(
        type_of_value(lookup(merged, "type"@)),
        type_of_value(lookup(merged, "r#type"@)),
        fallback,
    )
}

/// No type could be resolved: both type-carrying fields are absent or
/// not strings, and no fallback answered.
pub open spec fn spec_type_missing(merged: Seq<EntryView>, fallback: Option<Seq<char>>) -> bool {
    &&& type_of_value(lookup(merged, "type"@)) is None
    &&& type_of_value(lookup(merged, "r#type"@)) is None
    &&& fallback is None
}

/// The missing-type policy fires: resolution reached the sentinel and
/// the event is at least as urgent as the configured level.
pub open spec fn spec_policy_triggered(
    policy: Option<Level>,
    level: Level,
    merged: Seq<EntryView>,
    fallback: Option<Seq<char>>,
) -> bool {
    &&& spec_type_missing(merged, fallback)
    &&& policy is Some
    &&& at_least_as_urgent(level, policy->0)
}

/// A record's final fields: both type-carrying keys removed, then the
/// `spans` entry bound.
pub open spec fn spec_final_fields(merged: Seq<EntryView>, spans: Seq<char>) -> Seq<EntryView> {
    insert_key(
        remove_key(remove_key(merged, "type"@), "r#type"@),
        "spans"@,
        FieldValueView::Str(spans),
    )
}

/// The event's own message, for the synthetic record: the value of its
/// `message` field when string-valued, else the literal `"<none>"`.
pub open spec fn spec_original_message(event_fields: Seq<EntryView>) -> Seq<char> {
    match lookup(event_fields, "message"@) {
        Some(FieldValueView::Str(s)) => s,
        _ => "<none>"@,
    }
}

/// The text of the synthetic policy record's message field.
pub open spec fn spec_policy_message(level: Level) -> Seq<char> {
    "events with level "@ + spec_level_name(level) + " require a type to be set"@
}

/// The synthetic record reporting a missing required type: type
/// `mozlog.missing-type`, severity fixed at 3, and fields naming the
/// offending event's level, message and spans.
pub open spec fn spec_missing_type_record(
    layer: LayerView,
    event: LogEventView,
    spans: Seq<char>,
    timestamp: int,
) -> MozLogMessageView {
    MozLogMessageView {
        timestamp,
        message_type: "mozlog.missing-type"@,
        logger: layer.name,
        hostname: layer.hostname,
        env_version: "2.0"@,
        pid: layer.pid,
        severity: 3,
        fields: seq![
            ("message"@, FieldValueView::Str(spec_policy_message(event.level))),
            ("original_level"@, FieldValueView::Str(spec_level_name(event.level))),
            ("original_message"@, FieldValueView::Str(spec_original_message(event.fields))),
            ("spans"@, FieldValueView::Str(spans)),
        ],
    }
}

/// The record an event itself becomes: merged fields with the type
/// keys stripped and `spans` added, the resolved type, and the
/// severity of the event's level.
pub open spec fn spec_main_record(
    layer: LayerView,
    event: LogEventView,
    frames: Seq<ContextFrameView>,
    timestamp: int,
    fallback: Option<Seq<char>>,
) -> MozLogMessageView {
    let merged = merge_frames(event.fields, frames);
    MozLogMessageView {
        timestamp,
        message_type: spec_resolved_type(merged, fallback),
        logger: layer.name,
        hostname: layer.hostname,
        env_version: "2.0"@,
        pid: layer.pid,
        severity: spec_severity(event.level) as int,
        fields: spec_final_fields(merged, spec_spans(frames)),
    }
}

/// The serialized lines one event produces: its own record, preceded
/// by the synthetic policy record when the policy fires.
pub open spec fn spec_format_lines(
    layer: LayerView,
    event: LogEventView,
    frames: Seq<ContextFrameView>,
    timestamp: int,
    fallback: Option<Seq<char>>,
) -> Seq<Seq<char>> {
    let merged = merge_frames(event.fields, frames);
    let main = crate::record::spec_render_record(
        spec_main_record(layer, event, frames, timestamp, fallback),
    );
    if spec_policy_triggered(layer.type_required_for_level, event.level, merged, fallback) {
        seq![
            crate::record::spec_render_record(
                spec_missing_type_record(layer, event, spec_spans(frames), timestamp),
            ),
            main,
        ]
    } else {
        seq![main]
    }
}

/// Removing one key leaves the binding of every other key alone.
proof fn lemma_lookup_remove_other(entries: Seq<EntryView>, k1: Seq<char>, k2: Seq<char>)
    requires
        k1 != k2,
    ensures
        lookup(remove_key(entries, k1), k2) == lookup(entries, k2),
    decreases entries.len(),
{
    if entries.len() > 0 {
        if entries[0].0 == k1 {
        } else {
            lemma_lookup_remove_other(entries.drop_first(), k1, k2);
            let removed = remove_key(entries, k1);
            assert(removed == seq![entries[0]] + remove_key(entries.drop_first(), k1));
            assert(removed[0] == entries[0]);
            assert(removed.drop_first() =~= remove_key(entries.drop_first(), k1));
        }
    }
}

/// The event-formatting layer: it carries the logger's identity, the
/// missing-type policy and the optional fallback handler, and renders
/// events into serialized records.
pub struct MozLogFormatLayer<F: TypeFallback> {
    name: String,
    pid: u32,
    hostname: String,
    type_required_for_level: Option<Level>,
    unknown_type_handler: Option<F>,
}

impl<F: TypeFallback> View for MozLogFormatLayer<F> {
    type V = LayerView;

    closed spec fn view(&self) -> LayerView {
        LayerView {
            name: self.name@,
            hostname: self.hostname@,
            pid: self.pid as int,
            type_required_for_level: self.type_required_for_level,
            has_handler: self.unknown_type_handler is Some,
        }
    }
}

fn resolve_from(t: Option<String>, rt: Option<String>, fallback: Option<String>) -> (r: String)
    ensures
        r@ == spec_resolve_from(t.deep_view(), rt.deep_view(), fallback.deep_view()),
{
    match t {
        Some(s) => s,
        None => match rt {
            Some(s) => s,
            None => match fallback {
                Some(s) => s,
                None => String::from_str("<unknown>"),
            },
        },
    }
}

fn value_as_string(v: Option<FieldValue>) -> (r: Option<String>)
    ensures
        r.deep_view() == type_of_value(v.deep_view()),
{
    match v {
        Some(FieldValue::Str(s)) => Some(s),
        _ => None,
    }
}

/// The event's own message for the synthetic record.
fn original_message(event_fields: &FieldMap) -> (r: String)
    ensures
        r@ == spec_original_message(event_fields@),
{
    let key = String::from_str("message");
    match event_fields.get(&key) {
        Some(FieldValue::Str(s)) => s.clone(),
        _ => String::from_str("<none>"),
    }
}

/// The synthetic record's message text.
fn policy_message(level: Level) -> (r: String)
    ensures
        r@ == spec_policy_message(level),
{
    let mut s = String::from_str("events with level ");
    let name = level.name();
    s.append(name.as_str());
    s.append(" require a type to be set");
    s
}

impl MozLogFormatLayer<NoFallback> {
    /// Create a layer with the given logger name and host and process
    /// identity, with the missing-type policy off and no fallback
    /// handler.
    pub fn new(name: String, pid: u32, hostname: String) -> (r: MozLogFormatLayer<NoFallback>)
        ensures
            r@ == (LayerView {
                name: name@,
                hostname: hostname@,
                pid: pid as int,
                type_required_for_level: None::<Level>,
                has_handler: false,
            }),
    {
        MozLogFormatLayer {
            name,
            pid,
            hostname,
            type_required_for_level: None,
            unknown_type_handler: None,
        }
    }
}

impl<F: TypeFallback> MozLogFormatLayer<F> {
    /// Require a type on every event at least as urgent as `level`;
    /// `None` turns the policy off.
    pub fn with_type_required_for_level(self, level: Option<Level>) -> (r: MozLogFormatLayer<F>)
        ensures
            r@ == (LayerView { type_required_for_level: level, ..self@ }),
    {
        MozLogFormatLayer { type_required_for_level: level, ..self }
    }

    /// Install a fallback handler consulted for events without a type.
    pub fn with_unknown_type_handler<G: TypeFallback>(self, handler: G) -> (r: MozLogFormatLayer<
        G,
    >)
        ensures
            r@ == (LayerView { has_handler: true, ..self@ }),
    {
        MozLogFormatLayer {
            name: self.name,
            pid: self.pid,
            hostname: self.hostname,
            type_required_for_level: self.type_required_for_level,
            unknown_type_handler: Some(handler),
        }
    }

    /// Format one event against its frame chain with an explicit
    /// fallback answer, yielding the serialized record lines in
    /// emission order: the synthetic policy record, if any, strictly
    /// before the event's own record.
    pub fn format_event_with(
        &self,
        event: &LogEvent,
        frames: &Vec<ContextFrame>,
        timestamp: i64,
        fallback: Option<String>,
    ) -> (lines: Vec<String>)
        ensures
            lines.deep_view() == spec_format_lines(
                self@,
                event@,
                frames.deep_view(),
                timestamp as int,
                fallback.deep_view(),
            ),
    {
        let ghost merged0_v = merge_frames(event@.fields, frames.deep_view());
        let mut merged = merge_fields(&event.fields, frames);
        let spans = spans_string(frames);

        let type_key = String::from_str("type");
        let raw_type_key = String::from_str("r#type");
        let t = merged.remove(&type_key);
        let rt = merged.remove(&raw_type_key);
        proof {
            reveal_strlit("type");
            reveal_strlit("r#type");
            assert("type"@.len() == 4);
            assert("r#type"@.len() == 6);
            lemma_lookup_remove_other(merged0_v, "type"@, "r#type"@);
        }
        merged.insert(String::from_str("spans"), FieldValue::Str(spans.clone()));

        let t_str = value_as_string(t);
        let rt_str = value_as_string(rt);
        let type_missing = t_str.is_none() && rt_str.is_none() && fallback.is_none();

        let mut lines: Vec<String> = Vec::new();
        if type_missing {
            if let Some(required) = self.type_required_for_level {
                if event.level.is_at_least_as_urgent_as(required) {
                    let mut synth_fields = FieldMap::new();
                    synth_fields.push(
                        String::from_str("message"),
                        FieldValue::Str(policy_message(event.level)),
                    );
                    synth_fields.push(
                        String::from_str("original_level"),
                        FieldValue::Str(event.level.name()),
                    );
                    synth_fields.push(
                        String::from_str("original_message"),
                        FieldValue::Str(original_message(&event.fields)),
                    );
                    synth_fields.push(String::from_str("spans"), FieldValue::Str(spans.clone()));
                    let synth = MozLogMessage {
                        timestamp,
                        message_type: String::from_str("mozlog.missing-type"),
                        logger: self.name.clone(),
                        hostname: self.hostname.clone(),
                        env_version: String::from_str("2.0"),
                        pid: self.pid,
                        severity: 3,
                        fields: synth_fields,
                    };
                    proof {
                        let target = spec_missing_type_record(
                            self@,
                            event@,
                            spec_spans(frames.deep_view()),
                            timestamp as int,
                        );
                        assert(synth@.fields =~= target.fields);
                        assert(synth@ == target);
                    }
                    lines.push(render_record(&synth));
                }
            }
        }

        let resolved = resolve_from(t_str, rt_str, fallback);
        let record = MozLogMessage {
            timestamp,
            message_type: resolved,
            logger: self.name.clone(),
            hostname: self.hostname.clone(),
            env_version: String::from_str("2.0"),
            pid: self.pid,
            severity: event.level.severity(),
            fields: merged,
        };
        proof {
            let target = spec_main_record(
                self@,
                event@,
                frames.deep_view(),
                timestamp as int,
                fallback.deep_view(),
            );
            assert(record@.fields =~= target.fields);
            assert(record@ == target);
        }
        lines.push(render_record(&record));
        proof {
            assert(lines.deep_view() =~= spec_format_lines(
                self@,
                event@,
                frames.deep_view(),
                timestamp as int,
                fallback.deep_view(),
            ));
        }
        lines
    }

    /// Format one event against its frame chain, consulting the
    /// configured fallback handler for events without a type field.
    /// The handler's answer is whatever its implementation returns;
    /// without a handler the sentinel path is taken exactly.
    pub fn format_event(&self, event: &LogEvent, frames: &Vec<ContextFrame>, timestamp: i64) -> (lines: Vec<
        String,
    >)
        ensures
            exists|fb: Option<Seq<char>>|
                #![auto]
                lines.deep_view() == spec_format_lines(
                    self@,
                    event@,
                    frames.deep_view(),
                    timestamp as int,
                    fb,
                ),
            !self@.has_handler ==> lines.deep_view() == spec_format_lines(
                self@,
                event@,
                frames.deep_view(),
                timestamp as int,
                None::<Seq<char>>,
            ),
    {
        let fallback: Option<String> = match &self.unknown_type_handler {
            Some(h) => h.unknown_type(event),
            None => None,
        };
        let lines = self.format_event_with(event, frames, timestamp, fallback);
        proof {
            assert(lines.deep_view() == spec_format_lines(
                self@,
                event@,
                frames.deep_view(),
                timestamp as int,
                fallback.deep_view(),
            ));
        }
        lines
    }
}


/// Inserting one key leaves the binding of every other key alone.
proof fn lemma_lookup_insert_other(
    entries: Seq<EntryView>,
    k1: Seq<char>,
    v: FieldValueView,
    k2: Seq<char>,
)
    requires
        k1 != k2,
    ensures
        lookup(insert_key(entries, k1, v), k2) == lookup(entries, k2),
    decreases entries.len(),
{
    let inserted = insert_key(entries, k1, v);
    if entries.len() == 0 {
        assert(inserted =~= seq![(k1, v)]);
        assert(inserted.drop_first() =~= Seq::<EntryView>::empty());
        assert(lookup(inserted.drop_first(), k2) is None);
        assert(lookup(inserted, k2) is None);
    } else if entries[0].0 == k1 {
        assert(inserted == seq![(k1, v)] + entries.drop_first());
        assert(inserted[0] == (k1, v));
        assert(inserted.drop_first() =~= entries.drop_first());
    } else {
        lemma_lookup_insert_other(entries.drop_first(), k1, v, k2);
        assert(inserted == seq![entries[0]] + insert_key(entries.drop_first(), k1, v));
        assert(inserted[0] == entries[0]);
        assert(inserted.drop_first() =~= insert_key(entries.drop_first(), k1, v));
    }
}

/// A field the event sets itself reaches the rendered record with the
/// event's own value, whatever any enclosing frame binds it to — for
/// every key the pipeline does not reserve for itself.
pub proof fn lemma_event_field_in_record(
    layer: LayerView,
    event: LogEventView,
    frames: Seq<ContextFrameView>,
    timestamp: int,
    fallback: Option<Seq<char>>,
    k: Seq<char>,
)
    requires
        has_key(event.fields, k),
        k != "type"@,
        k != "r#type"@,
        k != "spans"@,
    ensures
        lookup(spec_main_record(layer, event, frames, timestamp, fallback).fields, k) == lookup(
            event.fields,
            k,
        ),
{
    let merged = merge_frames(event.fields, frames);
    crate::merge::lemma_event_field_wins(event.fields, frames, k);
    lemma_lookup_remove_other(merged, "type"@, k);
    lemma_lookup_remove_other(remove_key(merged, "type"@), "r#type"@, k);
    lemma_lookup_insert_other(
        remove_key(remove_key(merged, "type"@), "r#type"@),
        "spans"@,
        FieldValueView::Str(spec_spans(frames)),
        k,
    );
}

/// A field absent from the event reaches the rendered record with the
/// innermost enclosing frame's value: frame `i` wins whenever no more
/// deeply nested frame binds the key — for every key the pipeline
/// does not reserve for itself.
pub proof fn lemma_innermost_frame_in_record(
    layer: LayerView,
    event: LogEventView,
    frames: Seq<ContextFrameView>,
    timestamp: int,
    fallback: Option<Seq<char>>,
    k: Seq<char>,
    i: int,
)
    requires
        !has_key(event.fields, k),
        0 <= i < frames.len(),
        has_key(frames[i].fields, k),
        forall|j: int| i < j < frames.len() ==> !has_key(#[trigger] frames[j].fields, k),
        k != "type"@,
        k != "r#type"@,
        k != "spans"@,
    ensures
        lookup(spec_main_record(layer, event, frames, timestamp, fallback).fields, k) == lookup(
            frames[i].fields,
            k,
        ),
{
    let merged = merge_frames(event.fields, frames);
    crate::merge::lemma_innermost_frame_wins(event.fields, frames, k, i);
    lemma_lookup_remove_other(merged, "type"@, k);
    lemma_lookup_remove_other(remove_key(merged, "type"@), "r#type"@, k);
    lemma_lookup_insert_other(
        remove_key(remove_key(merged, "type"@), "r#type"@),
        "spans"@,
        FieldValueView::Str(spec_spans(frames)),
        k,
    );
}

/// With a required-type policy at level `L`, an event at least as
/// urgent as `L` whose merged fields carry no type and for which no
/// fallback answers produces exactly two records, in order: first the
/// synthetic `mozlog.missing-type` record at severity 3, naming the
/// event's level and message, then the event's own record with the
/// `"<unknown>"` sentinel type.
pub proof fn lemma_missing_type_policy(
    layer: LayerView,
    event: LogEventView,
    frames: Seq<ContextFrameView>,
    timestamp: int,
)
    requires
        layer.type_required_for_level is Some,
        at_least_as_urgent(event.level, layer.type_required_for_level->0),
        spec_type_missing(merge_frames(event.fields, frames), None::<Seq<char>>),
    ensures
        ({
            let lines = spec_format_lines(layer, event, frames, timestamp, None::<Seq<char>>);
            let synth = spec_missing_type_record(layer, event, spec_spans(frames), timestamp);
            let main = spec_main_record(layer, event, frames, timestamp, None::<Seq<char>>);
            &&& lines == seq![
                crate::record::spec_render_record(synth),
                crate::record::spec_render_record(main),
            ]
            &&& synth.message_type == "mozlog.missing-type"@
            &&& synth.severity == 3
            &&& lookup(synth.fields, "original_level"@) == Some(
                FieldValueView::Str(spec_level_name(event.level)),
            )
            &&& lookup(synth.fields, "original_message"@) == Some(
                FieldValueView::Str(spec_original_message(event.fields)),
            )
            &&& lookup(synth.fields, "spans"@) == Some(FieldValueView::Str(spec_spans(frames)))
            &&& main.message_type == "<unknown>"@
        }),
{
    let synth = spec_missing_type_record(layer, event, spec_spans(frames), timestamp);
    reveal_strlit("message");
    reveal_strlit("original_level");
    reveal_strlit("original_message");
    reveal_strlit("spans");
    assert("message"@.len() == 7);
    assert("original_level"@.len() == 14);
    assert("original_message"@.len() == 16);
    assert("spans"@.len() == 5);
    assert(synth.fields[0].0 == "message"@);
    assert(synth.fields.drop_first() =~= seq![
        ("original_level"@, FieldValueView::Str(spec_level_name(event.level))),
        ("original_message"@, FieldValueView::Str(spec_original_message(event.fields))),
        ("spans"@, FieldValueView::Str(spec_spans(frames))),
    ]);
    lemma_lookup_literal_chain(synth.fields, event, frames);
}

/// Unfold the synthetic record's four-entry field list far enough to
/// read each key's binding.
proof fn lemma_lookup_literal_chain(
    fields: Seq<EntryView>,
    event: LogEventView,
    frames: Seq<ContextFrameView>,
)
    requires
        fields =~= seq![
            ("message"@, FieldValueView::Str(spec_policy_message(event.level))),
            ("original_level"@, FieldValueView::Str(spec_level_name(event.level))),
            ("original_message"@, FieldValueView::Str(spec_original_message(event.fields))),
            ("spans"@, FieldValueView::Str(spec_spans(frames))),
        ],
        "message"@.len() == 7,
        "original_level"@.len() == 14,
        "original_message"@.len() == 16,
        "spans"@.len() == 5,
    ensures
        lookup(fields, "original_level"@) == Some(
            FieldValueView::Str(spec_level_name(event.level)),
        ),
        lookup(fields, "original_message"@) == Some(
            FieldValueView::Str(spec_original_message(event.fields)),
        ),
        lookup(fields, "spans"@) == Some(FieldValueView::Str(spec_spans(frames))),
{
    let s1 = fields.drop_first();
    let s2 = s1.drop_first();
    let s3 = s2.drop_first();
    assert(s1 =~= seq![
        ("original_level"@, FieldValueView::Str(spec_level_name(event.level))),
        ("original_message"@, FieldValueView::Str(spec_original_message(event.fields))),
        ("spans"@, FieldValueView::Str(spec_spans(frames))),
    ]);
    assert(s2 =~= seq![
        ("original_message"@, FieldValueView::Str(spec_original_message(event.fields))),
        ("spans"@, FieldValueView::Str(spec_spans(frames))),
    ]);
    assert(s3 =~= seq![("spans"@, FieldValueView::Str(spec_spans(frames)))]);
    assert(lookup(s3, "spans"@) == Some(FieldValueView::Str(spec_spans(frames))));
    assert(lookup(s2, "original_message"@) == Some(
        FieldValueView::Str(spec_original_message(event.fields)),
    ));
    assert(lookup(s2, "spans"@) == Some(FieldValueView::Str(spec_spans(frames))));
    assert(lookup(s1, "original_level"@) == Some(
        FieldValueView::Str(spec_level_name(event.level)),
    ));
    assert(lookup(s1, "original_message"@) == Some(
        FieldValueView::Str(spec_original_message(event.fields)),
    ));
    assert(lookup(s1, "spans"@) == Some(FieldValueView::Str(spec_spans(frames))));
}

/// A fallback answer both supplies the resolved type and keeps the
/// missing-type policy from firing: whatever the policy says, an event
/// without type fields whose fallback answers `fb` yields exactly one
/// record, typed `fb`.
pub proof fn lemma_fallback_suppresses_policy(
    layer: LayerView,
    event: LogEventView,
    frames: Seq<ContextFrameView>,
    timestamp: int,
    fb: Seq<char>,
)
    requires
        type_of_value(lookup(merge_frames(event.fields, frames), "type"@)) is None,
        type_of_value(lookup(merge_frames(event.fields, frames), "r#type"@)) is None,
    ensures
        ({
            let lines = spec_format_lines(layer, event, frames, timestamp, Some(fb));
            let main = spec_main_record(layer, event, frames, timestamp, Some(fb));
            &&& lines == seq![crate::record::spec_render_record(main)]
            &&& main.message_type == fb
        }),
{
}

} // verus!
