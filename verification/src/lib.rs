//! Reconciliation core for a dynamic-DNS updater.
//!
//! Given the caller's current public addresses and a snapshot of the DNS
//! records a provider stores for a domain, this library decides which
//! provider calls (create, update, delete) converge the zone on the desired
//! records, maps each call to a concrete HTTP request, and interprets the
//! provider's responses. All network traffic is left to the embedding
//! program; the library only plans, sequences and checks it.

pub mod client;
pub mod encode;
pub mod errors;
pub mod orchestrate;
pub mod plan;
pub mod reconcile;
pub mod records;
