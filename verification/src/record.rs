//! The fixed-schema output record and its serialized form.

use vstd::prelude::*;

use crate::fields::{EntryView, FieldMap};
use crate::render::{
    int_digits, push_fields, push_i64_dec, push_json_string, push_u64_dec, spec_escape,
    spec_render_fields,
};
use crate::strutil::{chars_to_string, push_str_chars};

verus! {

/// The mathematical model of an output record.
pub struct MozLogMessageView {
    /// Nanoseconds since the UNIX epoch.
    pub timestamp: int,
    /// The message-classification string.
    pub message_type: Seq<char>,
    /// The logger (service) name.
    pub logger: Seq<char>,
    /// The host that generated the record.
    pub hostname: Seq<char>,
    /// The log-format envelope version.
    pub env_version: Seq<char>,
    /// The process that generated the record.
    pub pid: int,
    /// The numeric syslog severity, in `3..=7`.
    pub severity: int,
    /// The merged user-facing fields, in rendering order.
    pub fields: Seq<EntryView>,
}

/// One output record in the fixed MozLog schema.
///
/// Timestamps are held as signed 64-bit nanosecond counts since the
/// UNIX epoch; that is the one timestamp width this crate uses.
#[derive(Clone, Debug)]
pub struct MozLogMessage {
    /// Nanoseconds since the UNIX epoch.
    pub timestamp: i64,
    /// The message-classification string.
    pub message_type: String,
    /// The logger (service) name.
    pub logger: String,
    /// The host that generated the record.
    pub hostname: String,
    /// The log-format envelope version.
    pub env_version: String,
    /// The process that generated the record.
    pub pid: u32,
    /// The numeric syslog severity.
    pub severity: u32,
    /// The merged user-facing fields.
    pub fields: FieldMap,
}

impl View for MozLogMessage {
    type V = MozLogMessageView;

    open spec fn view(&self) -> MozLogMessageView {
        MozLogMessageView {
            timestamp: self.timestamp as int,
            message_type: self.message_type@,
            logger: self.logger@,
            hostname: self.hostname@,
            env_version: self.env_version@,
            pid: self.pid as int,
            severity: self.severity as int,
            fields: self.fields@,
        }
    }
}

/// The exact serialized form of a record: one JSON object with the
/// fixed schema's key names and order, terminated by a newline.
pub open spec fn spec_render_record(r: MozLogMessageView) -> Seq<char> {
    "{"@ + "\""@ + spec_escape("Timestamp"@) + "\""@ + ":"@ + int_digits(r.timestamp) + ","@
        + "\""@ + spec_escape("Type"@) + "\""@ + ":"@ + "\""@ + spec_escape(r.message_type) + "\""@
        + ","@ + "\""@ + spec_escape("Logger"@) + "\""@ + ":"@ + "\""@ + spec_escape(r.logger)
        + "\""@ + ","@ + "\""@ + spec_escape("Hostname"@) + "\""@ + ":"@ + "\""@ + spec_escape(
        r.hostname,
    ) + "\""@ + ","@ + "\""@ + spec_escape("EnvVersion"@) + "\""@ + ":"@ + "\""@ + spec_escape(
        r.env_version,
    ) + "\""@ + ","@ + "\""@ + spec_escape("Pid"@) + "\""@ + ":"@ + int_digits(r.pid) + ","@
        + "\""@ + spec_escape("Severity"@) + "\""@ + ":"@ + int_digits(r.severity) + ","@ + "\""@
        + spec_escape("Fields"@) + "\""@ + ":"@ + spec_render_fields(r.fields) + "}"@ + "\n"@
}

/// Serialize a record into its one-line JSON form, newline included.
///
/// Serialization is total: it cannot fail, so no record is ever
/// dropped by this layer.
pub fn render_record(msg: &MozLogMessage) -> (r: String)
    ensures
        r@ == spec_render_record(msg@),
{
    let mut out: Vec<char> = Vec::new();
    push_str_chars(&mut out, "{");
    push_json_string(&mut out, "Timestamp");
    push_str_chars(&mut out, ":");
    push_i64_dec(&mut out, msg.timestamp);
    push_str_chars(&mut out, ",");
    push_json_string(&mut out, "Type");
    push_str_chars(&mut out, ":");
    push_json_string(&mut out, msg.message_type.as_str());
    push_str_chars(&mut out, ",");
    push_json_string(&mut out, "Logger");
    push_str_chars(&mut out, ":");
    push_json_string(&mut out, msg.logger.as_str());
    push_str_chars(&mut out, ",");
    push_json_string(&mut out, "Hostname");
    push_str_chars(&mut out, ":");
    push_json_string(&mut out, msg.hostname.as_str());
    push_str_chars(&mut out, ",");
    push_json_string(&mut out, "EnvVersion");
    push_str_chars(&mut out, ":");
    push_json_string(&mut out, msg.env_version.as_str());
    push_str_chars(&mut out, ",");
    push_json_string(&mut out, "Pid");
    push_str_chars(&mut out, ":");
    push_u64_dec(&mut out, msg.pid as u64);
    push_str_chars(&mut out, ",");
    push_json_string(&mut out, "Severity");
    push_str_chars(&mut out, ":");
    push_u64_dec(&mut out, msg.severity as u64);
    push_str_chars(&mut out, ",");
    push_json_string(&mut out, "Fields");
    push_str_chars(&mut out, ":");
    push_fields(&mut out, &msg.fields);
    push_str_chars(&mut out, "}");
    push_str_chars(&mut out, "\n");
    proof {
        assert(out@ =~= spec_render_record(msg@));
    }
    chars_to_string(&out)
}

} // verus!
