//! Verified core of a multicast sensor-telemetry pipeline.
//!
//! A producer encodes periodic sensor readings into small self-describing
//! datagrams and broadcasts them over UDP multicast; any number of consumers
//! decode the stream and keep a "last known reading", while a bounded,
//! insertion-ordered log history aggregates the process's own diagnostic
//! records for a terminal dashboard.
//!
//! This crate holds the logic worth proving: the wire codec, the per-tick
//! ingestion state machine, the bounded log aggregator with its scroll-window
//! arithmetic, and the small text utilities they share. The unverifiable rim
//! (sockets, terminal drawing, the tracing subscriber) lives outside, handing
//! plain values in and out.

pub mod client;
pub mod codec;
pub mod history;
pub mod log_widget;
pub mod textfmt;
