//! An in-process telemetry submission pipeline: an in-memory queue of
//! serialized-ready envelopes, a transmitter that interprets ingestion-server
//! responses, a retry schedule, and a worker state machine coordinated by a
//! flush / close / terminate command protocol.
//!
//! The asynchronous plumbing around the pipeline (the HTTP client, the tokio
//! tasks, the timers) lives outside this crate; everything here is the logic
//! those tasks execute, with its behaviour stated in contracts.

pub mod channel;
pub mod config;
pub mod contracts;
pub mod queue;
pub mod schedule;
pub mod telemetry;
pub mod time;
pub mod transmitter;
pub mod worker;
