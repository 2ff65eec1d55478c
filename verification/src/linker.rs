//! Planned links, their status on the file system, and the reconciliation of a
//! whole set of mappings.
pub mod link;
pub mod reconciliation;
pub mod types;
