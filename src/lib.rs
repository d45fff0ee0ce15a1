//! Provisioning logic for a self-contained runtime: source-URL parsing,
//! idempotency probes, fallback chains, transfer progress, archive entry
//! planning and the ordered stage pipeline.
pub mod text;
pub mod outcome;
pub mod source;
pub mod transfer;
pub mod chain;
pub mod archive;
pub mod probe;
pub mod pipeline;
