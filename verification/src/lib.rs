//! Verified core of a pipeline that streams Azure Event Hub events to Vector.
//!
//! The library holds the decisions of the pipeline: configuration defaults,
//! the per-partition consumer state machine, the checkpoint cache and blob
//! naming, the metrics aggregates and report, and the batch delivery retry
//! state machine. The network, storage and timer work is done by the caller.

pub mod text;
pub mod connection;
pub mod consumer;
pub mod checkpoints;
pub mod metrics;
pub mod pipeline;
pub mod retry;
pub mod sender;
