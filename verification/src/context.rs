//! The immutable trace context that crosses process boundaries.

use vstd::prelude::*;

verus! {

/// Flags bit that marks a sampled (recorded) trace.
pub const FLAG_SAMPLED: u8 = 1;

/// An immutable trace context: a 128-bit trace identifier shared by every
/// span of one logical request, the 64-bit identifier of the span that is
/// current on the sending side, and the trace flags (sampling bit).
#[derive(Clone, Copy, PartialEq, Eq, Structural, Debug)]
pub struct TraceContext {
    pub trace_id: u128,
    pub span_id: u64,
    pub flags: u8,
}

impl TraceContext {
    /// A valid context always has a non-zero trace-id.  A span-id of zero
    /// marks an absent / root parent and is not itself invalid.
    pub open spec fn valid(self) -> bool {
        self.trace_id != 0
    }
}

} // verus!
