//! The instrumented handler chain: the entrypoint role, which roots a trace
//! and relays to the worker, and the worker role, which joins the incoming
//! trace, computes the payload value under a nested decision span, and
//! counts the request.
//!
//! The one suspension point — the outbound call — belongs to the external
//! transport: the embedding program calls `entrypoint_begin`, performs the
//! call carrying the filled carrier, and hands the outcome to
//! `entrypoint_finish` (or `entrypoint_cancelled` on task teardown).

use vstd::prelude::*;

use crate::carrier::Carrier;
use crate::codec::decode;
use crate::codec::decode_spec;
use crate::codec::encode;
use crate::codec::traceparent_key;
use crate::codec::traceparent_value;
use crate::context::TraceContext;
use crate::factory::deref_opt;
use crate::factory::fresh_span_ok;
use crate::factory::parented;
use crate::factory::start_span;
use crate::hex::lemma_hex_value_bound;
use crate::hex::lemma_pow16_values;
use crate::metrics::Counters;
use crate::metrics::step_counters;
use crate::relay::TransportOutcome;
use crate::relay::record_outcome;
use crate::rng::gen_range_u64;
use crate::span::Span;
use crate::span::SpanEvent;
use crate::span::SpanKind;
use crate::span::SpanRecorder;
use crate::span::SpanStatus;
use crate::span::end_span;
use crate::span::same_identity;

verus! {

/// What the entrypoint answers its caller: the worker's body verbatim on
/// relay success, a server error (non-2xx, no partial body) on failure.
#[derive(Clone, Debug)]
pub enum HandlerResponse {
    Success { body: Vec<u8> },
    ServerError,
}

/// The parent the worker acts under: the carrier's context when present and
/// well formed, absent otherwise — a malformed carrier degrades to a new
/// root rather than rejecting the request.
pub open spec fn extracted_parent(c: Carrier) -> Option<TraceContext> {
    match decode_spec(c) {
        Ok(p) => p,
        Err(_) => None,
    }
}

/// Decodes the carrier, treating a malformed context as absent: propagation
/// must never block the primary function.
pub fn extract_parent(carrier: &Carrier) -> (r: Option<TraceContext>)
    ensures
        r == extracted_parent(*carrier),
        r matches Some(p) ==> p.valid(),
{
    let r = match decode(carrier) {
        Ok(p) => p,
        Err(_) => None,
    };
    proof {
        if r is Some {
            let v = carrier.lookup(traceparent_key())->0;
            lemma_pow16_values();
            lemma_hex_value_bound(v.subrange(3, 35));
        }
    }
    r
}

/// Cross-hop linkage law: a worker that receives a carrier whose canonical
/// field holds the encoding of a valid context — as the entrypoint's relay
/// fills it — extracts exactly that context, so its server span joins that
/// trace under that span (see `worker_spans_ok`).
pub proof fn lemma_relay_linkage(c: Carrier, ctx: TraceContext)
    requires
        ctx.valid(),
        c.lookup(traceparent_key()) == Some(traceparent_value(ctx)),
    ensures
        extracted_parent(c) == Some(ctx),
{
    crate::codec::lemma_round_trip(ctx);
}

/// The worker's payload value: the base draw doubled, plus one when the
/// decision came out odd.
pub open spec fn worker_value(base: u64, odd: bool) -> u64 {
    (2 * base + if odd {
        1u64
    } else {
        0u64
    }) as u64
}

/// The payload arithmetic, split from the draws so that it is verified for
/// every value the draws can produce: doubling the base makes it even, the
/// decision alone decides the parity.
pub fn compute_value(base: u64, odd: bool) -> (v: u64)
    requires
        1 <= base <= 9,
    ensures
        v == worker_value(base, odd),
        2 <= v <= 19,
        (v % 2 == 1) == odd,
{
    let doubled = 2 * base;
    if odd {
        doubled + 1
    } else {
        doubled
    }
}

/// What the worker's nested decision span records: an internal child of the
/// given parent named after the decision, ended with ok status, holding
/// exactly the decision event.
pub open spec fn decision_span_ok(d: Span, parent: TraceContext, odd: bool) -> bool {
    &&& d.name@ == "is_odd"@
    &&& d.kind == SpanKind::Internal
    &&& !d.open
    &&& d.status == SpanStatus::Okay
    &&& d.trace_id == parent.trace_id
    &&& d.parent_span_id == Some(parent.span_id)
    &&& d.events@ == seq![(SpanEvent::DecisionOutcome { is_odd: odd })]
}

/// The nested sub-decision: draws an independent even-odds boolean inside a
/// child span of the current context, records the outcome as an event, and
/// ends the span on every path.
pub fn decide_is_odd(current: &TraceContext, recorder: &mut SpanRecorder) -> (odd: bool)
    requires
        current.valid(),
    ensures
        final(recorder).finished@.len() == old(recorder).finished@.len() + 1,
        forall|i: int|
            0 <= i < old(recorder).finished@.len() ==> final(recorder).finished@[i] == old(
                recorder,
            ).finished@[i],
        decision_span_ok(final(recorder).finished@.last(), *current, odd),
{
    let (mut span, _cx) = start_span("is_odd".to_owned(), SpanKind::Internal, Some(current));
    let odd: bool = rand::random();
    span.add_event(SpanEvent::DecisionOutcome { is_odd: odd });
    end_span(recorder, span, SpanStatus::Okay, None);
    proof {
        assert(recorder.finished@.last().events@ =~= seq![
            (SpanEvent::DecisionOutcome { is_odd: odd }),
        ]);
    }
    odd
}

/// What the worker role leaves in the recorder: the decision span `d` and
/// the worker span `w`, a strict two-level tree under the extracted parent,
/// with the computed value as the worker span's event.
pub open spec fn worker_spans_ok(
    parent: Option<TraceContext>,
    d: Span,
    w: Span,
    v: u64,
) -> bool {
    &&& w.name@ == "worker"@
    &&& w.kind == SpanKind::Server
    &&& !w.open
    &&& w.status == SpanStatus::Okay
    &&& w.wf()
    &&& parented(w, parent)
    &&& decision_span_ok(d, w.context_spec(), v % 2 == 1)
    &&& w.events@ == seq![(SpanEvent::GeneratedNumber { value: v })]
}

/// The worker role, whole: extracts the incoming context (malformed degrades
/// to absent), opens a server span parented to it, computes the payload
/// value under a nested decision span, records the value as an event, counts
/// one success, and ends both spans.  The worker has no failure path.
pub fn handle_worker(carrier: &Carrier, recorder: &mut SpanRecorder, counters: &mut Counters) -> (v:
    u64)
    requires
        old(counters).success < u64::MAX,
    ensures
        2 <= v <= 19,
        *final(counters) == step_counters(*old(counters), true),
        final(recorder).finished@.len() == old(recorder).finished@.len() + 2,
        forall|i: int|
            0 <= i < old(recorder).finished@.len() ==> final(recorder).finished@[i] == old(
                recorder,
            ).finished@[i],
        worker_spans_ok(
            extracted_parent(*carrier),
            final(recorder).finished@[final(recorder).finished@.len() - 2],
            final(recorder).finished@.last(),
            v,
        ),
{
    let parent = extract_parent(carrier);
    let (mut wspan, wcx) = start_span("worker".to_owned(), SpanKind::Server, parent.as_ref());
    let base = gen_range_u64(1, 10);
    let odd = decide_is_odd(&wcx, recorder);
    let v = compute_value(base, odd);
    wspan.add_event(SpanEvent::GeneratedNumber { value: v });
    counters.record_success();
    end_span(recorder, wspan, SpanStatus::Okay, None);
    proof {
        assert(recorder.finished@.last().events@ =~= seq![
            (SpanEvent::GeneratedNumber { value: v }),
        ]);
    }
    v
}

/// Opens the entrypoint's root span (no upstream trace is expected in this
/// role) and encodes its context into the outbound carrier, preserving every
/// other key.
pub fn entrypoint_begin(outbound: &mut Carrier) -> (r: (Span, TraceContext))
    ensures
        fresh_span_ok(r.0, r.1, "entrypoint"@, SpanKind::Server, None::<TraceContext>),
        final(outbound).lookup(traceparent_key()) == Some(traceparent_value(r.1)),
        forall|k: Seq<u8>|
            k != traceparent_key() ==> final(outbound).lookup(k) == old(outbound).lookup(k),
{
    let (span, cx) = start_span("entrypoint".to_owned(), SpanKind::Server, None);
    encode(&cx, outbound);
    (span, cx)
}

/// What the entrypoint's ended span looks like for a given outcome.
pub open spec fn entry_span_ok(e: Span, span: Span, outcome: TransportOutcome) -> bool {
    &&& same_identity(e, span)
    &&& !e.open
    &&& match outcome {
        TransportOutcome::Delivered { body } => e.status == SpanStatus::Okay && e.events@
            == span.events@.push(SpanEvent::ReceivedResponse),
        TransportOutcome::Failed { reason } => e.status == SpanStatus::Error && e.events@
            == span.events@.push((SpanEvent::RequestFailed { reason })),
    }
}

/// Closes out the entrypoint role once the relay's outcome is in: on success
/// the span ends ok and the worker's body is replied verbatim; on failure
/// the span ends in error and a server error is replied.  The span is ended
/// on both paths, and the matching counter is stepped exactly once.
pub fn entrypoint_finish(
    outcome: TransportOutcome,
    span: Span,
    recorder: &mut SpanRecorder,
    counters: &mut Counters,
) -> (resp: HandlerResponse)
    requires
        span.open,
        old(counters).success < u64::MAX,
        old(counters).failure < u64::MAX,
    ensures
        final(recorder).finished@.len() == old(recorder).finished@.len() + 1,
        forall|i: int|
            0 <= i < old(recorder).finished@.len() ==> final(recorder).finished@[i] == old(
                recorder,
            ).finished@[i],
        entry_span_ok(final(recorder).finished@.last(), span, outcome),
        (outcome matches TransportOutcome::Delivered { body } ==> resp == (HandlerResponse::Success {
            body,
        }) && *final(counters) == step_counters(*old(counters), true)),
        (outcome matches TransportOutcome::Failed { reason } ==> resp == HandlerResponse::ServerError
            && *final(counters) == step_counters(*old(counters), false)),
{
    let mut open_span = span;
    match record_outcome(outcome, &mut open_span, counters) {
        Ok(body) => {
            end_span(recorder, open_span, SpanStatus::Okay, None);
            HandlerResponse::Success { body }
        },
        Err(_error) => {
            end_span(recorder, open_span, SpanStatus::Error, None);
            HandlerResponse::ServerError
        },
    }
}

/// Ends the entrypoint's span when the task is torn down while the relay is
/// still awaiting its outcome: spans never leak in the open state.
pub fn entrypoint_cancelled(span: Span, recorder: &mut SpanRecorder)
    requires
        span.open,
    ensures
        final(recorder).finished@.len() == old(recorder).finished@.len() + 1,
        forall|i: int|
            0 <= i < old(recorder).finished@.len() ==> final(recorder).finished@[i] == old(
                recorder,
            ).finished@[i],
        same_identity(final(recorder).finished@.last(), span),
        !final(recorder).finished@.last().open,
        final(recorder).finished@.last().status == SpanStatus::Error,
        final(recorder).finished@.last().status_message matches Some(m) && m@ == "cancelled"@,
{
    end_span(recorder, span, SpanStatus::Error, Some("cancelled".to_owned()));
}

} // verus!
