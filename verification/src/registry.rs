//! What stands between a registry source and the registry: the choice of the
//! client, the cache of what the client fetched, and the store of what was
//! extracted.

pub mod cache;
pub mod client;
pub mod fingerprint;
pub mod package_source_store;
