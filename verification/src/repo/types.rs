//! The repository as a place on the file system.
use crate::config::rc::Rc;
use crate::dir::Dir;
use crate::environment::types::Environment;
use crate::fs::IoError;
use crate::paths::{join, spec_join};
use crate::relative::{to_path, to_path_spec};
use vstd::prelude::*;

verus! {

/// Why a repository cannot be used.
#[derive(Debug, PartialEq, Eq)]
pub enum RepoError {
    Io(IoError),
}

/// The repository.
#[derive(Debug, PartialEq, Eq)]
pub struct Repo {
    pub path: String,
}

/// The path of the repository: the one given, or else the location that the
/// file in the home directory names, below the home directory.
pub open spec fn repo_path(home: Seq<char>, location: Seq<char>, given: Option<Seq<char>>) -> Seq<char> {
    match given {
        Some(path) => path,
        None => to_path_spec(location, home),
    }
}

impl Repo {
    pub fn new(path: String) -> (repo: Self)
        ensures
            repo.path == path,
    {
        Repo { path }
    }

    /// The repository of an environment: see [`repo_path`].
    pub fn from_config(environment: &Environment, rc: &Rc, given: Option<String>) -> (repo: Self)
        ensures
            repo.path@ == repo_path(
                environment@.home,
                rc.repo.location@,
                crate::collections::option_text(given),
            ),
    {
        match given {
            Some(path) => Repo::new(path),
            None => Repo::new(to_path(rc.repo.location.as_str(), environment.home.as_path())),
        }
    }

    /// The directory of the repository that holds what is to be linked.
    pub fn etc(&self) -> (path: String)
        ensures
            path@ == spec_join(self.path@, "etc"@),
    {
        join(self.path.as_str(), "etc")
    }

    /// Nothing is asked of a repository as such.
    pub fn check(&self) -> (checked: Result<(), RepoError>)
        ensures
            checked is Ok,
    {
        Ok(())
    }
}

} // verus!
