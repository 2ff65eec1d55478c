//! What a run does, step by step: make out the environment, then show it or
//! bring its links in line with the repository.
pub mod info;
pub mod init;
pub mod run;
pub mod sync;
