//! Core runtime for ingestion sources in an observability pipeline:
//! a byte-to-event decoding pipeline, an instrumentation event bus,
//! a shutdown coordinator, and the source scheduling state machines.

pub mod decode;
pub mod event;
pub mod internal_events;
pub mod json;
pub mod poll;
pub mod shutdown;
pub mod unix;
