//! Execution core of a validator for an object-based ledger.
//!
//! On-chain state lives in discrete, versioned objects, each with a single
//! logical owner.  This crate validates, applies and schedules one built-in
//! value-transfer instruction against such objects: a validity checker gates
//! admission, a native transfer executor applies the transfer and produces a
//! deterministic effects record, and an execution scheduler chooses between a
//! fast path (quorum certificate, owned objects only) and the ordered path,
//! consulting a congestion estimator keyed by object contention.

pub mod config;
pub mod congestion;
pub mod digest;
pub mod effects;
pub mod executor;
pub mod laws;
pub mod pipeline;
pub mod scheduler;
pub mod store;
pub mod types;
pub mod validity;
