//! A verified engine for a self-certifying DID method: an append-only chain
//! of DID documents (a microledger) whose authenticity any holder of the DID
//! string and the published document sequence can check locally, without a
//! third-party PKI.
//!
//! The crate covers the chain-validation rules, an in-memory validated
//! document store, the three resolver strategies (full, thin, raw), the
//! registry-side update protocol, and the configuration decisions that select
//! among them.  Network transport and persistent storage backends sit outside
//! the crate; they hand plain document values in and take plain values back.

pub mod config;
pub mod document;
pub mod errors;
pub mod hash;
pub mod laws;
pub mod registry;
pub mod resolver;
pub mod store;
pub mod validate;
