//! Identity and summary data: sources, package ids, checksums, requirements.

pub mod checksum;
pub mod dependency;
pub mod index;
pub mod package_id;
pub mod source_id;
pub mod summary;
pub mod version_req;
