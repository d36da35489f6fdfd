//! The request-lifecycle tracker: one root context frame per request.
//!
//! A request's span is created on arrival, completed exactly once —
//! with a response (success path) or with the pipeline's own error
//! (failure path) — and then emits exactly one `request.summary`
//! event, after which it is spent. The state machine admits no
//! re-entry: every transition requires the state it leaves.

use vstd::prelude::*;
use vstd::string::StringExecFns;

use crate::fields::{EntryView, FieldMap, FieldValue, FieldValueView};
use crate::level::Level;
use crate::merge::ContextFrame;
use crate::subscriber::LogEvent;

verus! {

/// Where a request span stands in its life.
#[derive(Clone, Copy, Debug, PartialEq, Eq, Structural)]
pub enum RequestState {
    /// The span exists; the request is still being handled.
    Created,
    /// The request's outcome has been recorded.
    Completed,
    /// The terminal `request.summary` event has been produced.
    Emitted,
}

/// The mathematical model of an application-level request error.
pub struct RequestErrorView {
    /// The HTTP status associated with the error.
    pub status: u16,
    /// The human-readable error description.
    pub message: Seq<char>,
}

/// An application-level error attributed to a request.
#[derive(Clone, Debug)]
pub struct RequestError {
    /// The HTTP status associated with the error.
    pub status: u16,
    /// The human-readable error description.
    pub message: String,
}

impl View for RequestError {
    type V = RequestErrorView;

    open spec fn view(&self) -> RequestErrorView {
        RequestErrorView { status: self.status, message: self.message@ }
    }
}

impl DeepView for RequestError {
    type V = RequestErrorView;

    open spec fn deep_view(&self) -> RequestErrorView {
        self.view()
    }
}

impl RequestError {
    /// An error with the given status and description.
    pub fn new(status: u16, message: String) -> (r: RequestError)
        ensures
            r@ == (RequestErrorView { status, message: message@ }),
    {
        RequestError { status, message }
    }
}

/// The mathematical model of a request span.
pub struct RequestSpanView {
    /// Where the span stands in its life.
    pub state: RequestState,
    /// The request's HTTP method.
    pub method: Seq<char>,
    /// The request's path.
    pub path: Seq<char>,
    /// The request identifier.
    pub rid: Seq<char>,
    /// The inbound user-agent header, when one was present.
    pub agent: Option<Seq<char>>,
    /// The recorded status code.
    pub code: Option<u16>,
    /// The recorded error number; always 1 when set.
    pub errno: Option<u32>,
    /// The recorded error description.
    pub msg: Option<Seq<char>>,
    /// Elapsed handling time in whole milliseconds.
    pub t_ms: Option<u64>,
    /// Elapsed handling time in nanoseconds.
    pub t_ns: Option<u64>,
}

/// The root context frame of one request: its identity, captured on
/// arrival, and the outcome slots filled in on completion.
#[derive(Clone, Debug)]
pub struct RequestSpan {
    state: RequestState,
    method: String,
    path: String,
    rid: String,
    agent: Option<String>,
    code: Option<u16>,
    errno: Option<u32>,
    msg: Option<String>,
    t_ms: Option<u64>,
    t_ns: Option<u64>,
}

impl View for RequestSpan {
    type V = RequestSpanView;

    closed spec fn view(&self) -> RequestSpanView {
        RequestSpanView {
            state: self.state,
            method: self.method@,
            path: self.path@,
            rid: self.rid@,
            agent: self.agent.deep_view(),
            code: self.code,
            errno: self.errno,
            msg: self.msg.deep_view(),
            t_ms: self.t_ms,
            t_ns: self.t_ns,
        }
    }
}

/// The shared error-annotation step: error number 1, the error's
/// description and its status code.
pub open spec fn spec_annotate_error(s: RequestSpanView, e: RequestErrorView) -> RequestSpanView {
    RequestSpanView {
        errno: Some(1u32),
        msg: Some(e.message),
        code: Some(e.status),
        ..s
    }
}

/// A successfully-responded span: elapsed times recorded, then either
/// the error annotation (when the response carries an error) or the
/// response's own status code.
pub open spec fn spec_complete_success(
    s: RequestSpanView,
    elapsed_ms: u64,
    elapsed_ns: u64,
    status: u16,
    error: Option<RequestErrorView>,
) -> RequestSpanView {
    let timed = RequestSpanView {
        state: RequestState::Completed,
        t_ms: Some(elapsed_ms),
        t_ns: Some(elapsed_ns),
        ..s
    };
    match error {
        Some(e) => spec_annotate_error(timed, e),
        None => RequestSpanView { code: Some(status), ..timed },
    }
}

/// A span completed on the failure path: only the error annotation,
/// no elapsed-time fields.
pub open spec fn spec_complete_failure(
    s: RequestSpanView,
    error: RequestErrorView,
) -> RequestSpanView {
    spec_annotate_error(RequestSpanView { state: RequestState::Completed, ..s }, error)
}

/// The summary frame's fields: identity first, then every outcome
/// slot that was filled, in a fixed order.
pub open spec fn spec_summary_fields(s: RequestSpanView) -> Seq<EntryView> {
    seq![
        ("method"@, FieldValueView::Str(s.method)),
        ("path"@, FieldValueView::Str(s.path)),
    ] + (match s.code {
        Some(c) => seq![("code"@, FieldValueView::Int(c as int))],
        None => Seq::<EntryView>::empty(),
    }) + seq![("rid"@, FieldValueView::Str(s.rid))] + (match s.errno {
        Some(e) => seq![("errno"@, FieldValueView::Int(e as int))],
        None => Seq::<EntryView>::empty(),
    }) + (match s.agent {
        Some(a) => seq![("agent"@, FieldValueView::Str(a))],
        None => Seq::<EntryView>::empty(),
    }) + (match s.msg {
        Some(m) => seq![("msg"@, FieldValueView::Str(m))],
        None => Seq::<EntryView>::empty(),
    }) + (match s.t_ms {
        Some(t) => seq![("t"@, FieldValueView::Int(t as int))],
        None => Seq::<EntryView>::empty(),
    }) + (match s.t_ns {
        Some(t) => seq![("t_ns"@, FieldValueView::Int(t as int))],
        None => Seq::<EntryView>::empty(),
    })
}

/// The own fields of the terminal summary event: just the legacy
/// type key naming the `request.summary` schema.
pub open spec fn spec_summary_event_fields() -> Seq<EntryView> {
    seq![("r#type"@, FieldValueView::Str("request.summary"@))]
}

impl RequestSpan {
    /// Open a span for an arriving request. The caller captures the
    /// request's monotonic start instant alongside; elapsed times are
    /// handed back in at completion.
    pub fn new(method: String, path: String, rid: String, agent: Option<String>) -> (r:
        RequestSpan)
        ensures
            r@ == (RequestSpanView {
                state: RequestState::Created,
                method: method@,
                path: path@,
                rid: rid@,
                agent: agent.deep_view(),
                code: None::<u16>,
                errno: None::<u32>,
                msg: None::<Seq<char>>,
                t_ms: None::<u64>,
                t_ns: None::<u64>,
            }),
    {
        RequestSpan {
            state: RequestState::Created,
            method,
            path,
            rid,
            agent,
            code: None,
            errno: None,
            msg: None,
            t_ms: None,
            t_ns: None,
        }
    }

    /// The span's current state.
    pub fn state(&self) -> (s: RequestState)
        ensures
            s == self@.state,
    {
        self.state
    }

    fn annotate_error(&mut self, error: RequestError)
        ensures
            final(self)@ == spec_annotate_error(old(self)@, error@),
    {
        self.errno = Some(1);
        self.code = Some(error.status);
        self.msg = Some(error.message);
    }

    /// Record a response's outcome: elapsed times as measured by the
    /// caller against the request's start instant, then the error
    /// annotation when the response carries an application error, or
    /// the response's status code otherwise.
    pub fn complete_success(
        &mut self,
        elapsed_ms: u64,
        elapsed_ns: u64,
        status: u16,
        error: Option<RequestError>,
    )
        requires
            old(self)@.state == RequestState::Created,
        ensures
            final(self)@ == spec_complete_success(
                old(self)@,
                elapsed_ms,
                elapsed_ns,
                status,
                error.deep_view(),
            ),
    {
        self.state = RequestState::Completed;
        self.t_ms = Some(elapsed_ms);
        self.t_ns = Some(elapsed_ns);
        match error {
            Some(e) => self.annotate_error(e),
            None => {
                self.code = Some(status);
            },
        }
    }

    /// Record that the pipeline failed before producing any response:
    /// only the error annotation, no elapsed-time fields.
    pub fn complete_failure(&mut self, error: RequestError)
        requires
            old(self)@.state == RequestState::Created,
        ensures
            final(self)@ == spec_complete_failure(old(self)@, error@),
    {
        self.state = RequestState::Completed;
        self.annotate_error(error);
    }

    /// Produce the terminal `request.summary` emission: the finalized
    /// span as the only active context frame, and an info-level event
    /// carrying the `request.summary` type. The span is spent
    /// afterwards; no further transition is possible.
    pub fn emit_summary(&mut self) -> (r: (ContextFrame, LogEvent))
        requires
            old(self)@.state == RequestState::Completed,
        ensures
            final(self)@ == (RequestSpanView { state: RequestState::Emitted, ..old(self)@ }),
            r.0@.name == "request"@,
            r.0@.fields == spec_summary_fields(old(self)@),
            r.1@.level == Level::Info,
            r.1@.fields == spec_summary_event_fields(),
    {
        self.state = RequestState::Emitted;
        let mut fields = FieldMap::new();
        fields.push(String::from_str("method"), FieldValue::Str(self.method.clone()));
        fields.push(String::from_str("path"), FieldValue::Str(self.path.clone()));
        if let Some(c) = self.code {
            fields.push(String::from_str("code"), FieldValue::UInt(c as u64));
        }
        fields.push(String::from_str("rid"), FieldValue::Str(self.rid.clone()));
        if let Some(e) = self.errno {
            fields.push(String::from_str("errno"), FieldValue::UInt(e as u64));
        }
        if let Some(a) = &self.agent {
            fields.push(String::from_str("agent"), FieldValue::Str(a.clone()));
        }
        if let Some(m) = &self.msg {
            fields.push(String::from_str("msg"), FieldValue::Str(m.clone()));
        }
        if let Some(t) = self.t_ms {
            fields.push(String::from_str("t"), FieldValue::UInt(t));
        }
        if let Some(t) = self.t_ns {
            fields.push(String::from_str("t_ns"), FieldValue::UInt(t));
        }
        proof {
            assert(fields@ =~= spec_summary_fields(old(self)@));
        }
        let frame = ContextFrame::new(String::from_str("request"), fields);
        let mut event_fields = FieldMap::new();
        event_fields.push(
            String::from_str("r#type"),
            FieldValue::Str(String::from_str("request.summary")),
        );
        proof {
            assert(event_fields@ =~= spec_summary_event_fields());
        }
        let event = LogEvent::new(Level::Info, event_fields);
        (frame, event)
    }
}

} // verus!
