//! A one-shot dynamic-DNS reconciler.
//!
//! The library holds the verified core: the record data model, the
//! interpretation of provider response envelopes, the per-record
//! reconciliation decision, and the step machine that sequences one run.
//! The surrounding binary performs the HTTP calls and feeds their results
//! back into the machine as plain values.

pub mod config;
pub mod errors;
pub mod laws;
pub mod machine;
pub mod probe;
pub mod provider;
pub mod reconcile;
pub mod records;
pub mod text;
