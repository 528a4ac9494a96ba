//! Core logic of a TLS-enabled reverse redirect service: a TTL-cached
//! configuration store with host lookup, the ACME certificate issuance
//! orchestration, the one-shot challenge completion signal, and the
//! certificate read-back rules.

pub mod acme;
pub mod certstore;
pub mod challenge;
pub mod config;
pub mod dispatch;
pub mod dns;
pub mod models;
