//! Plans the symbolic links that tie a repository of dotfiles into a home
//! environment, and compares the plan with what is already there.
//!
//! The library reads and changes no file by itself. The file system, the
//! terminal and the declarative files are capabilities that its user hands
//! in: see [`fs`], [`actions`], [`prompting`] and the sources in [`config`].
//! What is proved of a function that uses them holds whatever they answer.
//! Paths are texts with `/` between their components, as on Unix.
pub mod action;
pub mod actions;
pub mod application;
pub mod cli;
pub mod collections;
pub mod config;
pub mod dir;
pub mod environment;
pub mod fs;
pub mod linker;
pub mod mapping;
pub mod paths;
pub mod prompting;
pub mod relative;
pub mod repo;
pub mod tasks;
pub mod text;
pub mod validation;
