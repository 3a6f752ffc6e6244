//! The context codec: serializes a trace context into the carrier's single
//! canonical field and parses it back, after the W3C traceparent model:
//! `version(2 hex)-trace-id(32 hex)-span-id(16 hex)-flags(2 hex)`.

use vstd::prelude::*;

use crate::carrier::Carrier;
use crate::context::TraceContext;
use crate::hex::all_hex;
use crate::hex::hex_bytes;
use crate::hex::hex_value;
use crate::hex::lemma_hex_bytes_wf;
use crate::hex::lemma_hex_round_trip;
use crate::hex::lemma_hex_value_bound;
use crate::hex::lemma_pow16_values;
use crate::hex::parse_hex;
use crate::hex::push_hex;

verus! {

/// The ASCII dash separating the four fields of the canonical value.
pub const DASH: u8 = 0x2d;

/// The carrier was present but failed structural validation: wrong length,
/// invalid hex, an unsupported version byte, or an all-zero trace-id.
#[derive(Clone, Copy, PartialEq, Eq, Structural, Debug)]
pub struct MalformedContext;

/// The canonical carrier key, `traceparent`, as bytes.
pub open spec fn traceparent_key() -> Seq<u8> {
    seq![0x74u8, 0x72, 0x61, 0x63, 0x65, 0x70, 0x61, 0x72, 0x65, 0x6e, 0x74]
}

/// The canonical carrier key as an owned byte string.
pub fn canonical_key() -> (r: Vec<u8>)
    ensures
        r@ == traceparent_key(),
{
    let mut r: Vec<u8> = Vec::new();
    r.push(0x74);
    r.push(0x72);
    r.push(0x61);
    r.push(0x63);
    r.push(0x65);
    r.push(0x70);
    r.push(0x61);
    r.push(0x72);
    r.push(0x65);
    r.push(0x6e);
    r.push(0x74);
    proof {
        assert(r@ =~= traceparent_key());
    }
    r
}

/// The canonical value encoding a context: version `00`, then the trace-id,
/// span-id and flags as fixed-width lowercase hex, dash-separated.
pub open spec fn traceparent_value(c: TraceContext) -> Seq<u8> {
    hex_bytes(0, 2) + seq![DASH] + hex_bytes(c.trace_id, 32) + seq![DASH] + hex_bytes(
        c.span_id as u128,
        16,
    ) + seq![DASH] + hex_bytes(c.flags as u128, 2)
}

/// Structural validity of a canonical value: exact length, dashes in place,
/// all four fields lowercase hex, version zero, and a non-zero trace-id.
pub open spec fn well_formed_traceparent(s: Seq<u8>) -> bool {
    &&& s.len() == 55
    &&& s[2] == DASH
    &&& s[35] == DASH
    &&& s[52] == DASH
    &&& all_hex(s.subrange(0, 2))
    &&& hex_value(s.subrange(0, 2)) == 0
    &&& all_hex(s.subrange(3, 35))
    &&& hex_value(s.subrange(3, 35)) != 0
    &&& all_hex(s.subrange(36, 52))
    &&& all_hex(s.subrange(53, 55))
}

/// The context a well-formed canonical value denotes.
pub open spec fn parsed_context(s: Seq<u8>) -> TraceContext {
    TraceContext {
        trace_id: hex_value(s.subrange(3, 35)) as u128,
        span_id: hex_value(s.subrange(36, 52)) as u64,
        flags: hex_value(s.subrange(53, 55)) as u8,
    }
}

/// What decoding a carrier yields: absent without the canonical key, the
/// denoted context when its value is well formed, malformed otherwise.
pub open spec fn decode_spec(c: Carrier) -> Result<Option<TraceContext>, MalformedContext> {
    match c.lookup(traceparent_key()) {
        None => Ok(None),
        Some(v) => if well_formed_traceparent(v) {
            Ok(Some(parsed_context(v)))
        } else {
            Err(MalformedContext)
        },
    }
}

/// The canonical value for `c`, as an owned byte string.
pub fn encode_value(c: &TraceContext) -> (r: Vec<u8>)
    ensures
        r@ == traceparent_value(*c),
{
    let mut out: Vec<u8> = Vec::new();
    push_hex(&mut out, 0, 2);
    out.push(DASH);
    push_hex(&mut out, c.trace_id, 32);
    out.push(DASH);
    push_hex(&mut out, c.span_id as u128, 16);
    out.push(DASH);
    push_hex(&mut out, c.flags as u128, 2);
    proof {
        assert(out@ =~= traceparent_value(*c));
    }
    out
}

/// Serializes `c` into the carrier's canonical field, overwriting a colliding
/// field and preserving every other key.  Deterministic and pure but for the
/// carrier it fills.
pub fn encode(c: &TraceContext, carrier: &mut Carrier)
    requires
        c.valid(),
    ensures
        final(carrier).lookup(traceparent_key()) == Some(traceparent_value(*c)),
        forall|k: Seq<u8>|
            k != traceparent_key() ==> final(carrier).lookup(k) == old(carrier).lookup(k),
{
    let key = canonical_key();
    let value = encode_value(c);
    carrier.set(key, value);
}

/// Parses the canonical field if present: absent (not an error) without it,
/// the context it denotes when well formed, `MalformedContext` otherwise.
/// Unknown fields are ignored; side-effect-free.
pub fn decode(carrier: &Carrier) -> (r: Result<Option<TraceContext>, MalformedContext>)
    ensures
        r == decode_spec(*carrier),
{
    let key = canonical_key();
    let looked = carrier.get(key.as_slice());
    match looked {
        None => Ok(None),
        Some(v) => {
            let ghost s = v@;
            if v.len() != 55 {
                return Err(MalformedContext);
            }
            if !(v[2] == DASH && v[35] == DASH && v[52] == DASH) {
                return Err(MalformedContext);
            }
            let version = parse_hex(v.as_slice(), 0, 2);
            let trace = parse_hex(v.as_slice(), 3, 35);
            let span = parse_hex(v.as_slice(), 36, 52);
            let flags = parse_hex(v.as_slice(), 53, 55);
            match (version, trace, span, flags) {
                (Some(ver), Some(tid), Some(sid), Some(flg)) => {
                    if ver != 0 || tid == 0 {
                        return Err(MalformedContext);
                    }
                    proof {
                        lemma_pow16_values();
                        lemma_hex_value_bound(s.subrange(36, 52));
                        lemma_hex_value_bound(s.subrange(53, 55));
                    }
                    Ok(
                        Some(
                            TraceContext {
                                trace_id: tid,
                                span_id: sid as u64,
                                flags: flg as u8,
                            },
                        ),
                    )
                },
                _ => Err(MalformedContext),
            }
        },
    }
}

/// Round-trip law: encoding any valid context yields a well-formed canonical
/// value that parses back to an equal context — same trace-id, span-id and
/// flags.
pub proof fn lemma_round_trip(c: TraceContext)
    requires
        c.valid(),
    ensures
        well_formed_traceparent(traceparent_value(c)),
        parsed_context(traceparent_value(c)) == c,
{
    let s = traceparent_value(c);
    lemma_hex_bytes_wf(0, 2);
    lemma_hex_bytes_wf(c.trace_id, 32);
    lemma_hex_bytes_wf(c.span_id as u128, 16);
    lemma_hex_bytes_wf(c.flags as u128, 2);
    lemma_pow16_values();
    assert(s.subrange(0, 2) =~= hex_bytes(0, 2));
    assert(s.subrange(3, 35) =~= hex_bytes(c.trace_id, 32));
    assert(s.subrange(36, 52) =~= hex_bytes(c.span_id as u128, 16));
    assert(s.subrange(53, 55) =~= hex_bytes(c.flags as u128, 2));
    lemma_hex_round_trip(0, 2);
    lemma_hex_round_trip(c.trace_id, 32);
    lemma_hex_round_trip(c.span_id as u128, 16);
    lemma_hex_round_trip(c.flags as u128, 2);
}

} // verus!
