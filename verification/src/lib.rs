//! Registry-backed package resolution for a build tool's dependency manager.
//!
//! The crate holds the decisions of resolution and fetch and proves them: which index
//! records answer a dependency requirement, which registry client a source URL
//! selects, when an archive is fetched, verified and extracted, and what a loaded
//! package reports about itself. Network and file access stay with the caller,
//! who performs the actions that the functions here hand out and reports back
//! what happened.

pub mod collections;
pub mod errors;
pub mod model;
pub mod package;
pub mod registry;
pub mod sources;
