//! The propagation relay: the verified halves of an outbound call.  The
//! context is encoded into the outbound carrier before dispatch (see
//! `codec::encode`), the dispatch itself belongs to the externally supplied
//! transport, and the outcome that comes back is recorded here on the
//! caller's current span and on the counters — exactly once per call, with
//! no deduplication between calls.

use vstd::prelude::*;

use crate::metrics::Counters;
use crate::metrics::step_counters;
use crate::span::Span;
use crate::span::SpanEvent;
use crate::span::SpanStatus;
use crate::span::same_identity;

verus! {

/// The outbound call failed: connection error, timeout or unreadable body.
/// Recoverable; the relay never aborts the process on a failed call.
#[derive(Clone, Debug)]
pub struct TransportError {
    pub reason: Vec<u8>,
}

/// What the externally supplied transport handed back.
#[derive(Clone, Debug)]
pub enum TransportOutcome {
    /// The call succeeded and its body was read.
    Delivered { body: Vec<u8> },
    /// The call or the reading of its body failed, with the reason.
    Failed { reason: Vec<u8> },
}

/// Records a dispatched call's outcome on the caller's current span and the
/// counters.  Success appends a received-response event and counts one
/// success; failure appends a request-failed event carrying the reason,
/// marks the span's status as error, counts one failure, and surfaces a
/// recoverable error.
pub fn record_outcome(outcome: TransportOutcome, span: &mut Span, counters: &mut Counters) -> (r:
    Result<Vec<u8>, TransportError>)
    requires
        old(span).open,
        old(counters).success < u64::MAX,
        old(counters).failure < u64::MAX,
    ensures
        same_identity(*final(span), *old(span)),
        final(span).open,
        (outcome matches TransportOutcome::Delivered { body } ==> {
            &&& r == Ok::<Vec<u8>, TransportError>(body)
            &&& final(span).events@ == old(span).events@.push(SpanEvent::ReceivedResponse)
            &&& final(span).status == old(span).status
            &&& final(span).status_message == old(span).status_message
            &&& *final(counters) == step_counters(*old(counters), true)
        }),
        (outcome matches TransportOutcome::Failed { reason } ==> {
            &&& r matches Err(e) && e.reason@ == reason@
            &&& final(span).events@ == old(span).events@.push(
                (SpanEvent::RequestFailed { reason }),
            )
            &&& final(span).status == SpanStatus::Error
            &&& final(span).status_message is None
            &&& *final(counters) == step_counters(*old(counters), false)
        }),
{
    match outcome {
        TransportOutcome::Delivered { body } => {
            counters.record_success();
            span.add_event(SpanEvent::ReceivedResponse);
            Ok(body)
        },
        TransportOutcome::Failed { reason } => {
            counters.record_failure();
            let reason_copy = copy_bytes(&reason);
            span.add_event(SpanEvent::RequestFailed { reason });
            span.set_status(SpanStatus::Error, None);
            Err(TransportError { reason: reason_copy })
        },
    }
}

/// A fresh byte string holding the same bytes.
fn copy_bytes(v: &Vec<u8>) -> (r: Vec<u8>)
    ensures
        r@ == v@,
{
    let n = v.len();
    let mut r: Vec<u8> = Vec::new();
    let mut i: usize = 0;
    while i < n
        invariant
            0 <= i <= n == v@.len(),
            r@ =~= v@.subrange(0, i as int),
        decreases n - i,
    {
        r.push(v[i]);
        i = i + 1;
    }
    proof {
        assert(v@.subrange(0, n as int) =~= v@);
    }
    r
}

} // verus!
