//! Spans: one timed unit of work within a trace, and the in-memory recorder
//! that collects every ended span.
//!
//! A span is owned exclusively by the call frame that created it until it is
//! ended; ending consumes the span, so a span can be ended at most once and
//! can no longer change afterwards.  Wall-clock timestamps belong to the
//! external exporter collaborator and are not modelled here; the recorder's
//! order stands in for event time.

use vstd::prelude::*;

use crate::context::TraceContext;

verus! {

/// The role a span plays in a trace.
#[derive(Clone, Copy, PartialEq, Eq, Structural, Debug)]
pub enum SpanKind {
    Server,
    Client,
    Internal,
}

/// A span's final status.
#[derive(Clone, Copy, PartialEq, Eq, Structural, Debug)]
pub enum SpanStatus {
    Unset,
    Okay,
    Error,
}

/// One recorded span event, with its attributes as plain values.
#[derive(Clone, Debug)]
pub enum SpanEvent {
    /// The relay received the worker's response.
    ReceivedResponse,
    /// The outbound call failed; the failure reason as an attribute.
    RequestFailed { reason: Vec<u8> },
    /// The worker computed its value.
    GeneratedNumber { value: u64 },
    /// The nested decision span's outcome.
    DecisionOutcome { is_odd: bool },
}

/// One unit of work within a trace.  Open until ended; events may only be
/// appended while it is open.
#[derive(Clone, Debug)]
pub struct Span {
    pub name: String,
    pub kind: SpanKind,
    pub trace_id: u128,
    pub span_id: u64,
    pub parent_span_id: Option<u64>,
    pub flags: u8,
    pub status: SpanStatus,
    pub status_message: Option<String>,
    pub events: Vec<SpanEvent>,
    pub open: bool,
}

/// The identifying fields of two spans agree: everything but status, events
/// and openness.
pub open spec fn same_identity(a: Span, b: Span) -> bool {
    &&& a.name == b.name
    &&& a.kind == b.kind
    &&& a.trace_id == b.trace_id
    &&& a.span_id == b.span_id
    &&& a.parent_span_id == b.parent_span_id
    &&& a.flags == b.flags
}

impl Span {
    /// A well-formed span belongs to an actual trace.
    pub open spec fn wf(self) -> bool {
        self.trace_id != 0
    }

    /// The context that makes this span current for nested factory calls.
    pub open spec fn context_spec(self) -> TraceContext {
        TraceContext { trace_id: self.trace_id, span_id: self.span_id, flags: self.flags }
    }

    /// The context value wrapping this span.
    pub fn context(&self) -> (c: TraceContext)
        ensures
            c == self.context_spec(),
    {
        TraceContext { trace_id: self.trace_id, span_id: self.span_id, flags: self.flags }
    }

    /// Appends one event; only an open span takes events.
    pub fn add_event(&mut self, event: SpanEvent)
        requires
            old(self).open,
        ensures
            same_identity(*final(self), *old(self)),
            final(self).events@ == old(self).events@.push(event),
            final(self).status == old(self).status,
            final(self).status_message == old(self).status_message,
            final(self).open,
    {
        self.events.push(event);
    }

    /// Sets the status of an open span.
    pub fn set_status(&mut self, status: SpanStatus, message: Option<String>)
        requires
            old(self).open,
        ensures
            same_identity(*final(self), *old(self)),
            final(self).events@ == old(self).events@,
            final(self).status == status,
            final(self).status_message == message,
            final(self).open,
    {
        self.status = status;
        self.status_message = message;
    }
}

/// The in-memory collaborator that receives every ended span, in the order
/// the spans were ended.
pub struct SpanRecorder {
    pub finished: Vec<Span>,
}

impl SpanRecorder {
    /// A recorder with nothing recorded yet.
    pub fn new() -> (r: SpanRecorder)
        ensures
            r.finished@.len() == 0,
    {
        SpanRecorder { finished: Vec::new() }
    }

    /// How many spans have been ended into this recorder.
    pub fn count(&self) -> (n: usize)
        ensures
            n == self.finished@.len(),
    {
        self.finished.len()
    }
}

/// Ends a span: sets its status and closes it, handing it to the recorder.
/// The span is consumed, so no code path can end it twice, append further
/// events, or leave it open and reachable.
pub fn end_span(
    recorder: &mut SpanRecorder,
    span: Span,
    status: SpanStatus,
    status_message: Option<String>,
)
    requires
        span.open,
    ensures
        final(recorder).finished@.len() == old(recorder).finished@.len() + 1,
        forall|i: int|
            0 <= i < old(recorder).finished@.len() ==> final(recorder).finished@[i] == old(
                recorder,
            ).finished@[i],
        same_identity(final(recorder).finished@.last(), span),
        final(recorder).finished@.last().events@ == span.events@,
        final(recorder).finished@.last().status == status,
        final(recorder).finished@.last().status_message == status_message,
        !final(recorder).finished@.last().open,
{
    let mut ended = span;
    ended.status = status;
    ended.status_message = status_message;
    ended.open = false;
    recorder.finished.push(ended);
}

} // verus!
