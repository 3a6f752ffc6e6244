//! The span factory: opens a new span correctly parented to an optional
//! incoming context and returns the context that makes it current.

use vstd::prelude::*;

use crate::context::FLAG_SAMPLED;
use crate::context::TraceContext;
use crate::span::Span;
use crate::span::SpanKind;
use crate::span::SpanStatus;

verus! {

/// A raw 128-bit draw, nudged off zero: an all-zero trace-id is reserved to
/// mean "absent".
pub open spec fn nonzero_u128(v: u128) -> u128 {
    if v == 0 {
        1u128
    } else {
        v
    }
}

/// A raw 64-bit draw, nudged off zero: an all-zero span-id is reserved to
/// mean "absent / root parent".
pub open spec fn nonzero_u64(v: u64) -> u64 {
    if v == 0 {
        1u64
    } else {
        v
    }
}

/// The contexts an `Option<&TraceContext>` argument denotes.
pub open spec fn deref_opt(p: Option<&TraceContext>) -> Option<TraceContext> {
    match p {
        Some(c) => Some(*c),
        None => None,
    }
}

/// Parent linkage: with a valid parent the span joins the parent's trace,
/// its parent-span-id is the parent's span-id and the flags are carried
/// over; with no (or an invalid) parent the span is a root of a new trace
/// with default sampled flags.
pub open spec fn parented(s: Span, parent: Option<TraceContext>) -> bool {
    match parent {
        Some(p) => if p.valid() {
            &&& s.trace_id == p.trace_id
            &&& s.parent_span_id == Some(p.span_id)
            &&& s.flags == p.flags
        } else {
            s.parent_span_id is None && s.flags == FLAG_SAMPLED
        },
        None => s.parent_span_id is None && s.flags == FLAG_SAMPLED,
    }
}

/// What the factory promises of a newly opened span and the context that
/// wraps it.
pub open spec fn fresh_span_ok(
    s: Span,
    c: TraceContext,
    name: Seq<char>,
    kind: SpanKind,
    parent: Option<TraceContext>,
) -> bool {
    &&& s.open
    &&& s.status == SpanStatus::Unset
    &&& s.status_message is None
    &&& s.events@.len() == 0
    &&& s.name@ == name
    &&& s.kind == kind
    &&& s.wf()
    &&& c == s.context_spec()
    &&& c.valid()
    &&& parented(s, parent)
}

/// Deterministic core of the factory: builds the span and its context from
/// the parent and the two raw identifier draws.  With a valid parent the
/// trace-id is the parent's; otherwise it is the (nudged) raw draw.
pub fn span_from_ids(
    name: String,
    kind: SpanKind,
    parent: Option<&TraceContext>,
    raw_trace_id: u128,
    raw_span_id: u64,
) -> (r: (Span, TraceContext))
    ensures
        fresh_span_ok(r.0, r.1, name@, kind, deref_opt(parent)),
        r.0.span_id == nonzero_u64(raw_span_id),
        (match deref_opt(parent) {
            Some(p) => !p.valid() ==> r.0.trace_id == nonzero_u128(raw_trace_id),
            None => r.0.trace_id == nonzero_u128(raw_trace_id),
        }),
{
    let fresh_trace_id: u128 = if raw_trace_id == 0 {
        1
    } else {
        raw_trace_id
    };
    let (trace_id, parent_span_id, flags): (u128, Option<u64>, u8) = match parent {
        Some(p) => if p.trace_id != 0 {
            (p.trace_id, Some(p.span_id), p.flags)
        } else {
            (fresh_trace_id, None, FLAG_SAMPLED)
        },
        None => (fresh_trace_id, None, FLAG_SAMPLED),
    };
    let span_id: u64 = if raw_span_id == 0 {
        1
    } else {
        raw_span_id
    };
    let span = Span {
        name,
        kind,
        trace_id,
        span_id,
        parent_span_id,
        flags,
        status: SpanStatus::Unset,
        status_message: None,
        events: Vec::new(),
        open: true,
    };
    let cx = span.context();
    (span, cx)
}

/// Opens a new span.  With a valid parent context the span joins the
/// parent's trace under the parent's span; otherwise it roots a new trace
/// under a freshly drawn trace-id.  Identifiers are uniform random draws
/// (collision-resistant, never sequential), nudged off the reserved
/// all-zero values.
pub fn start_span(name: String, kind: SpanKind, parent: Option<&TraceContext>) -> (r: (
    Span,
    TraceContext,
))
    ensures
        fresh_span_ok(r.0, r.1, name@, kind, deref_opt(parent)),
{
    let raw_trace_id: u128 = rand::random();
    let raw_span_id: u64 = rand::random();
    span_from_ids(name, kind, parent, raw_trace_id, raw_span_id)
}

} // verus!
