//! Checks on single paths: that a directory is there, and that one path lies
//! within another.
pub mod containment;
pub mod directory;
