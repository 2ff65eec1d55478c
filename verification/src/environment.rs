//! The directories of a home environment.
pub mod checks;
pub mod inference;
pub mod types;
