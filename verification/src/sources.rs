//! The kinds of source that answer queries and hand out packages.

pub mod download;
pub mod registry;
