//! The repository: the classification of what a directory holds, and the
//! walk that gathers the mappings of a whole tree.
pub mod checks;
pub mod directory;
pub mod tree;
pub mod types;
