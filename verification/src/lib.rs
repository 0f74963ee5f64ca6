//! Core of a Google-federated login backend: caching the identity
//! provider's public signing keys, verifying signed identity tokens,
//! and reconciling verified identities against local account records.
//!
//! Network and database round trips live outside this crate; the logic
//! here works on plain values handed in by the caller and is verified.

pub mod content;
pub mod errors;
pub mod keys;
pub mod reconcile;
pub mod verify;
