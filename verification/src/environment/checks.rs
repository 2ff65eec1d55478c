//! Checks on the directories of an environment.
pub mod home;
pub mod structure;
pub mod tree;
