//! Do the directories of the environment lie within the home directory?
use crate::dir::{Dir, Labeled, LabeledDir};
use crate::environment::types::{CacheDir, ConfigDir, DataDir, Environment, Home, StateDir};
use crate::fs::{LinkReader, MetadataChecks};
use crate::validation::containment::{ContainmentCheck, ContainmentError};
use vstd::prelude::*;

verus! {

/// A directory of the environment that is not known to lie within the home
/// directory.
#[derive(Debug, PartialEq, Eq)]
pub enum StructureCheckError {
    Containment { label: &'static str, path: String, error: ContainmentError },
}

/// Checks that the environment lies within the home directory.
#[derive(Debug)]
pub struct StructureCheck<'a, MC: MetadataChecks, LR: LinkReader> {
    pub containment: ContainmentCheck<'a, MC, LR>,
}

/// Whether the error speaks of the directory with this label and path.
pub open spec fn names_dir(error: StructureCheckError, label: Seq<char>, path: Seq<char>) -> bool {
    match error {
        StructureCheckError::Containment { label: named, path: at, error: _ } => named@ == label
            && at@ == path,
    }
}

impl<'a, MC: MetadataChecks, LR: LinkReader> StructureCheck<'a, MC, LR> {
    pub fn new(containment: ContainmentCheck<'a, MC, LR>) -> (check: Self)
        ensures
            check.containment == containment,
    {
        StructureCheck { containment }
    }

    /// Checks that `dir` lies within `home`; an error names the directory.
    fn check_containment<D: LabeledDir>(&self, home: &Home, dir: &D) -> (checked: Result<
        (),
        StructureCheckError,
    >)
        ensures
            match checked {
                Ok(_) => true,
                Err(error) => names_dir(error, D::LABEL@, dir.path_text()),
            },
    {
        match self.containment.check(dir.as_path(), home.as_path()) {
            Ok(()) => Ok(()),
            Err(error) => Err(
                StructureCheckError::Containment {
                    label: D::LABEL,
                    path: dir.as_path().to_owned(),
                    error,
                },
            ),
        }
    }

    /// Checks the configuration, data, state and cache directories, in that
    /// order; the first that is not known to lie within the home directory
    /// ends the check, with an error that names it.
    pub fn check(&self, environment: &Environment) -> (checked: Result<(), StructureCheckError>)
        ensures
            match checked {
                Ok(_) => true,
                Err(error) => {
                    ||| names_dir(error, ConfigDir::LABEL@, environment@.config)
                    ||| names_dir(error, DataDir::LABEL@, environment@.data)
                    ||| names_dir(error, StateDir::LABEL@, environment@.state)
                    ||| names_dir(error, CacheDir::LABEL@, environment@.cache)
                },
            },
    {
        match self.check_containment(&environment.home, &environment.config) {
            Ok(()) => {},
            Err(error) => {
                return Err(error);
            },
        }
        match self.check_containment(&environment.home, &environment.data) {
            Ok(()) => {},
            Err(error) => {
                return Err(error);
            },
        }
        match self.check_containment(&environment.home, &environment.state) {
            Ok(()) => {},
            Err(error) => {
                return Err(error);
            },
        }
        self.check_containment(&environment.home, &environment.cache)
    }
}

} // verus!
