//! The changes that a run may make: directories that are missing, and links
//! that are pending.
pub mod directory_creator;
pub mod make_link;
