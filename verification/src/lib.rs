//! Batched acknowledgment of work-queue messages.
//!
//! A handler buffers the outcomes of message processing, decides when the
//! buffered batch is flushed, and drives the flush as a sequence of actions:
//! serialize, emit, store the dedup identities, delete the queue messages in
//! bounded batches, report each message, clear.

pub mod policy;
pub mod message;
pub mod batch;
pub mod flush;
pub mod token;
pub mod phase;
pub mod handler;
