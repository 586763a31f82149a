//! An ordered, replayable event log for a supervised agent subprocess,
//! together with the ingestion, projection and termination logic around it:
//! raw-channel pumps that turn byte chunks into log messages by a lossy,
//! never-failing decode,
//! a stateless projector that renders incremental transcript patches, and a
//! session state machine that guarantees exactly one clean terminal signal
//! whichever of process exit or logical completion arrives first.

pub mod agent;
pub mod cli;
pub mod ingest;
pub mod log_msg;
pub mod msg_store;
pub mod orchestrator;
pub mod platform;
pub mod projector;
pub mod text;
