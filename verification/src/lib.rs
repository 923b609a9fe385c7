//! Resolution of a display name plus a numeric discriminator into a stable
//! identity record.
//!
//! The crate owns the correctness-sensitive core of the lookup service: the
//! validated domain primitives that guard untrusted path input, and the
//! handler protocol that acquires the shared store connection under a bounded
//! wait, issues one query, and maps the result-set cardinality to an outcome.
//! Process bootstrap, route mounting and the store connection itself are
//! external collaborators.

pub mod api;
pub mod data;
pub mod encoding;
