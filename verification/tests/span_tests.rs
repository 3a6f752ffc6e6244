use trace_relay::context::TraceContext;
use trace_relay::factory::span_from_ids;
use trace_relay::factory::start_span;
use trace_relay::span::end_span;
use trace_relay::span::Span;
use trace_relay::span::SpanEvent;
use trace_relay::span::SpanKind;
use trace_relay::span::SpanRecorder;
use trace_relay::span::SpanStatus;

#[test]
fn child_span_links_to_parent() {
    let parent = TraceContext { trace_id: 0xabc, span_id: 0x123, flags: 1 };
    let (span, cx) = start_span("child".to_owned(), SpanKind::Server, Some(&parent));
    assert_eq!(span.trace_id, parent.trace_id);
    assert_eq!(span.parent_span_id, Some(parent.span_id));
    assert_eq!(span.flags, parent.flags);
    assert_eq!(cx.trace_id, span.trace_id);
    assert_eq!(cx.span_id, span.span_id);
    assert!(span.open);
    assert_eq!(span.status, SpanStatus::Unset);
    assert!(span.events.is_empty());
}

#[test]
fn root_span_has_fresh_trace_and_no_parent() {
    let (span, cx) = start_span("root".to_owned(), SpanKind::Server, None);
    assert_ne!(span.trace_id, 0);
    assert_eq!(span.parent_span_id, None);
    assert_eq!(cx.trace_id, span.trace_id);
    assert_eq!(span.name.as_str(), "root");
}

#[test]
fn factory_core_uses_raw_ids_for_roots() {
    let (span, _cx) = span_from_ids("op".to_owned(), SpanKind::Internal, None, 0x77, 0x55);
    assert_eq!(span.trace_id, 0x77);
    assert_eq!(span.span_id, 0x55);
    assert_eq!(span.kind, SpanKind::Internal);
}

#[test]
fn factory_core_nudges_zero_draws() {
    let (span, _cx) = span_from_ids("op".to_owned(), SpanKind::Server, None, 0, 0);
    assert_eq!(span.trace_id, 1);
    assert_eq!(span.span_id, 1);
}

#[test]
fn invalid_parent_degrades_to_root() {
    let bogus = TraceContext { trace_id: 0, span_id: 5, flags: 1 };
    let (span, _cx) = span_from_ids("op".to_owned(), SpanKind::Server, Some(&bogus), 9, 10);
    assert_eq!(span.trace_id, 9);
    assert_eq!(span.parent_span_id, None);
}

#[test]
fn nested_child_forms_strict_tree() {
    let (root, root_cx) = start_span("outer".to_owned(), SpanKind::Server, None);
    let (child, child_cx) = start_span("inner".to_owned(), SpanKind::Internal, Some(&root_cx));
    let (grandchild, _g) = start_span("leaf".to_owned(), SpanKind::Internal, Some(&child_cx));
    assert_eq!(child.trace_id, root.trace_id);
    assert_eq!(grandchild.trace_id, root.trace_id);
    assert_eq!(child.parent_span_id, Some(root.span_id));
    assert_eq!(grandchild.parent_span_id, Some(child.span_id));
}

#[test]
fn end_span_records_status_and_closes() {
    let mut rec = SpanRecorder::new();
    let (mut span, _cx) = start_span("op".to_owned(), SpanKind::Server, None);
    span.add_event(SpanEvent::ReceivedResponse);
    end_span(
        &mut rec,
        span,
        SpanStatus::Error,
        Some("boom".to_owned()),
    );
    assert_eq!(rec.count(), 1);
    let ended: &Span = &rec.finished[0];
    assert!(!ended.open);
    assert_eq!(ended.status, SpanStatus::Error);
    assert_eq!(ended.status_message.as_deref(), Some("boom"));
    assert_eq!(ended.events.len(), 1);
    assert!(matches!(ended.events[0], SpanEvent::ReceivedResponse));
}

#[test]
fn events_keep_append_order() {
    let (mut span, _cx) = start_span("op".to_owned(), SpanKind::Server, None);
    span.add_event(SpanEvent::DecisionOutcome { is_odd: true });
    span.add_event(SpanEvent::GeneratedNumber { value: 5 });
    assert_eq!(span.events.len(), 2);
    assert!(matches!(span.events[0], SpanEvent::DecisionOutcome { is_odd: true }));
    assert!(matches!(span.events[1], SpanEvent::GeneratedNumber { value: 5 }));
}
