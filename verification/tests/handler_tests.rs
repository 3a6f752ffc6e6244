use trace_relay::carrier::Carrier;
use trace_relay::handlers::compute_value;
use trace_relay::handlers::entrypoint_begin;
use trace_relay::handlers::entrypoint_cancelled;
use trace_relay::handlers::entrypoint_finish;
use trace_relay::handlers::handle_worker;
use trace_relay::handlers::HandlerResponse;
use trace_relay::metrics::Counters;
use trace_relay::relay::TransportOutcome;
use trace_relay::span::SpanEvent;
use trace_relay::span::SpanKind;
use trace_relay::span::SpanRecorder;
use trace_relay::span::SpanStatus;

#[test]
fn compute_value_exact() {
    assert_eq!(compute_value(1, false), 2);
    assert_eq!(compute_value(1, true), 3);
    assert_eq!(compute_value(4, false), 8);
    assert_eq!(compute_value(4, true), 9);
    assert_eq!(compute_value(9, false), 18);
    assert_eq!(compute_value(9, true), 19);
}

#[test]
fn worker_without_carrier_roots_its_own_trace() {
    let mut rec = SpanRecorder::new();
    let mut counters = Counters::new();
    let v = handle_worker(&Carrier::new(), &mut rec, &mut counters);

    assert!((2..=19).contains(&v));
    assert_eq!(counters.success, 1);
    assert_eq!(counters.failure, 0);
    assert_eq!(rec.count(), 2);

    let decision = &rec.finished[0];
    let worker = &rec.finished[1];
    assert_eq!(worker.name.as_str(), "worker");
    assert_eq!(decision.name.as_str(), "is_odd");
    assert_eq!(worker.kind, SpanKind::Server);
    assert_eq!(worker.parent_span_id, None);
    assert_eq!(worker.status, SpanStatus::Okay);
    assert_eq!(decision.kind, SpanKind::Internal);
    assert_eq!(decision.trace_id, worker.trace_id);
    assert_eq!(decision.parent_span_id, Some(worker.span_id));
    assert!(matches!(worker.events[0], SpanEvent::GeneratedNumber { value } if value == v));
    assert!(
        matches!(decision.events[0], SpanEvent::DecisionOutcome { is_odd } if is_odd == (v % 2 == 1))
    );
}

#[test]
fn end_to_end_reachable_worker() {
    let mut rec = SpanRecorder::new();
    let mut counters = Counters::new();

    let mut outbound = Carrier::new();
    let (entry_span, entry_cx) = entrypoint_begin(&mut outbound);

    let v = handle_worker(&outbound, &mut rec, &mut counters);
    let body = format!("{}", v).into_bytes();

    let resp = entrypoint_finish(
        TransportOutcome::Delivered { body: body.clone() },
        entry_span,
        &mut rec,
        &mut counters,
    );

    match resp {
        HandlerResponse::Success { body: got } => {
            let text = String::from_utf8(got).expect("decimal body");
            let n: u64 = text.parse().expect("parseable integer");
            assert!((2..=19).contains(&n));
            assert_eq!(n, v);
        }
        HandlerResponse::ServerError => panic!("relay succeeded, reply must too"),
    }

    // Exactly the entrypoint root, the worker child, and the nested decision
    // span were recorded.
    assert_eq!(rec.count(), 3);
    let decision = &rec.finished[0];
    let worker = &rec.finished[1];
    let entry = &rec.finished[2];

    assert_eq!(entry.name.as_str(), "entrypoint");
    assert_eq!(worker.name.as_str(), "worker");
    assert_eq!(decision.name.as_str(), "is_odd");
    assert_eq!(entry.span_id, entry_cx.span_id);
    assert_eq!(entry.parent_span_id, None);
    assert_eq!(entry.status, SpanStatus::Okay);
    assert_eq!(worker.trace_id, entry.trace_id);
    assert_eq!(worker.parent_span_id, Some(entry.span_id));
    assert_eq!(decision.trace_id, entry.trace_id);
    assert_eq!(decision.parent_span_id, Some(worker.span_id));

    // One success per hop: the worker's and the entrypoint's.
    assert_eq!(counters.success, 2);
    assert_eq!(counters.failure, 0);
}

#[test]
fn end_to_end_unreachable_worker() {
    let mut rec = SpanRecorder::new();
    let mut counters = Counters::new();

    let mut outbound = Carrier::new();
    let (entry_span, _cx) = entrypoint_begin(&mut outbound);

    let resp = entrypoint_finish(
        TransportOutcome::Failed { reason: b"connection refused".to_vec() },
        entry_span,
        &mut rec,
        &mut counters,
    );

    assert!(matches!(resp, HandlerResponse::ServerError));
    assert_eq!(counters.failure, 1);
    assert_eq!(counters.success, 0);
    assert_eq!(rec.count(), 1);

    let entry = &rec.finished[0];
    assert_eq!(entry.status, SpanStatus::Error);
    assert!(!entry.open);
    assert!(
        matches!(&entry.events[0], SpanEvent::RequestFailed { reason } if reason.as_slice() == b"connection refused")
    );
}

#[test]
fn counters_grow_by_exactly_one_per_successful_request() {
    let mut rec = SpanRecorder::new();
    let mut counters = Counters::new();
    let n = 25;
    for _ in 0..n {
        handle_worker(&Carrier::new(), &mut rec, &mut counters);
    }
    assert_eq!(counters.success, n);
    assert_eq!(counters.failure, 0);
    // Every started span was ended: two per worker request.
    assert_eq!(rec.count() as u64, 2 * n);
}

#[test]
fn cancelled_entrypoint_still_ends_its_span() {
    let mut rec = SpanRecorder::new();
    let mut outbound = Carrier::new();
    let (entry_span, _cx) = entrypoint_begin(&mut outbound);
    entrypoint_cancelled(entry_span, &mut rec);
    assert_eq!(rec.count(), 1);
    let entry = &rec.finished[0];
    assert!(!entry.open);
    assert_eq!(entry.status, SpanStatus::Error);
    assert_eq!(entry.status_message.as_deref(), Some("cancelled"));
}

#[test]
fn decision_symmetry_over_many_draws() {
    let mut rec = SpanRecorder::new();
    let mut counters = Counters::new();
    let n = 2000;
    let mut odd = 0u64;
    for _ in 0..n {
        let v = handle_worker(&Carrier::new(), &mut rec, &mut counters);
        if v % 2 == 1 {
            odd += 1;
        }
    }
    let fraction = odd as f64 / n as f64;
    assert!(
        (0.4..=0.6).contains(&fraction),
        "odd fraction {} strays far from one half",
        fraction
    );
}
