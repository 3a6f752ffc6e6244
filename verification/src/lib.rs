//! A verified trace-context propagation and span-hierarchy engine.
//!
//! Two chained services exchange a random-number computation; every hop
//! carries a distributed trace context so that one logical request appears
//! as a single connected trace across process boundaries.  This crate holds
//! the verified core: the carrier codec for the trace context, the span
//! factory that parents new spans correctly, the propagation relay that
//! records the outcome of an outbound call, and the two handler roles.
//! Transport, bootstrap and exporter wiring live outside the crate.

pub mod carrier;
pub mod codec;
pub mod context;
pub mod factory;
pub mod handlers;
pub mod hex;
pub mod metrics;
pub mod relay;
pub mod rng;
pub mod span;
