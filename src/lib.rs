//! Fetches packages from a package registry, caches them on disk and reuses a
//! cached archive only when its recomputed digest equals the one the registry
//! reports for that exact name and version.
//!
//! The library holds the verified logic: the artifact and registry addresses,
//! the metadata document scan, the digest check and the cache decisions.
//! Network and file work is left to the caller, which hands back plain values.

pub mod package;
pub mod metadata;
pub mod digest;
pub mod resolver;
