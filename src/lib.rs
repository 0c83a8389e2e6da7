//! Verifiable developer-reputation credentials.
//!
//! A trusted signer hashes and signs a developer's activity metrics; the
//! ledger in this crate accepts such signed payloads, issues one credential
//! per identity (and one per identity and repository), and runs the vouch and
//! reputation-query rules on top of them.
pub mod crypto;
pub mod errors;
pub mod state;
pub mod message;
pub mod auth;
pub mod table;
pub mod asset;
pub mod ledger;
pub mod instructions;
pub mod program;
pub mod laws;
pub mod models;
pub mod metrics;
pub mod signer;
pub mod payload;
pub mod sessions;
pub mod cookie;
pub mod base58;
