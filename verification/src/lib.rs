//! Identity statistics for crate versions of a package registry: a
//! deterministic 64-bit fingerprint of a (name, version) pair, containers keyed
//! by that fingerprint, the registry's data model with its textual codecs, and
//! the decisions of the offline cache that fronts the registry.

pub mod text;
pub mod version;
pub mod hash;
pub mod identity;
pub mod model;
pub mod retry;
pub mod cache;
