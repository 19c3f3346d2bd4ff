//! Reconciliation of catch-up packages: the authenticated checkpoint a node
//! resumes from, chosen among a locally persisted copy, the registry-derived
//! bootstrap package and packages offered by subnet peers.
pub mod cup;
pub mod reconcile;
pub mod store;
pub mod selector;
pub mod endpoint;
pub mod bls_bytes;
