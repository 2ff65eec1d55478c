//! Is the home directory there?
use crate::dir::Dir;
use crate::environment::types::Home;
use crate::fs::MetadataChecks;
use crate::validation::directory::{DirectoryCheck, DirectoryCheckError};
use vstd::prelude::*;

verus! {

/// What is wrong with the home directory.
#[derive(Debug, PartialEq, Eq)]
pub enum HomeCheckError {
    Check { path: String, error: DirectoryCheckError },
}

/// Checks the home directory.
#[derive(Debug)]
pub struct HomeCheck<'a, MC: MetadataChecks> {
    pub directory_check: DirectoryCheck<'a, MC>,
}

impl<'a, MC: MetadataChecks> HomeCheck<'a, MC> {
    pub fn new(directory_check: DirectoryCheck<'a, MC>) -> (check: Self)
        ensures
            check.directory_check == directory_check,
    {
        HomeCheck { directory_check }
    }

    /// Checks that the home directory is a directory; an error names its path.
    pub fn check(&self, home: &Home) -> (checked: Result<(), HomeCheckError>)
        ensures
            match checked {
                Ok(_) => true,
                Err(HomeCheckError::Check { path, error }) => path@ == home.path_text(),
            },
    {
        match self.directory_check.check(home.as_path()) {
            Ok(()) => Ok(()),
            Err(error) => Err(HomeCheckError::Check { path: home.as_path().to_owned(), error }),
        }
    }
}

} // verus!
