//! The declarative files: what a directory of the repository says of its
//! entries, and where such files are looked for.
pub mod file;
pub mod rc;
pub mod spec;
