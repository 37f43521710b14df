//! An off-chain price oracle pipeline for a small ledger runtime, together
//! with the on-chain pieces it feeds: a bounded observation ledger, a claim
//! registry, and a numbered-call dispatch boundary for contracts.
//!
//! The host machinery around the pipeline (block production, key storage,
//! transaction queuing, the HTTP transport) is out of scope; every decision
//! the pipeline makes about the host's answers is a verified function of
//! plain values describing those answers.

pub mod chain_extension;
pub mod decode;
pub mod driver;
pub mod fetch;
pub mod ledger;
pub mod mux;
pub mod poe;
pub mod submit;
pub mod system;
