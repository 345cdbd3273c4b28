//! The loaded package: its manifest, and what it reports about itself.

pub mod manifest;
pub mod package;
pub mod paths;
