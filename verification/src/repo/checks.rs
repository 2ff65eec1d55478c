//! Is the repository laid out as it should be?
use crate::fs::MetadataChecks;
use crate::repo::types::Repo;
use crate::validation::directory::{DirectoryCheck, DirectoryCheckError};
use vstd::prelude::*;

verus! {

/// What is wrong with the layout of a repository.
#[derive(Debug, Clone, Copy, PartialEq, Eq, Structural)]
pub enum StructureCheckError {
    /// The repository itself is no directory.
    Missing(DirectoryCheckError),
    /// The repository has no directory `etc`.
    Etc(DirectoryCheckError),
}

/// Checks the layout of a repository.
#[derive(Debug)]
pub struct StructureCheck<'a, MC: MetadataChecks> {
    pub repo_check: DirectoryCheck<'a, MC>,
    pub etc_check: DirectoryCheck<'a, MC>,
}

/// The verdict on a repository by the verdicts on its directory and on its
/// `etc`: the first that fails decides.
pub open spec fn structure_verdict(
    repo: Result<(), DirectoryCheckError>,
    etc: Result<(), DirectoryCheckError>,
) -> Result<(), StructureCheckError> {
    match repo {
        Err(error) => Err(StructureCheckError::Missing(error)),
        Ok(_) => match etc {
            Err(error) => Err(StructureCheckError::Etc(error)),
            Ok(_) => Ok(()),
        },
    }
}

impl<'a, MC: MetadataChecks> StructureCheck<'a, MC> {
    pub fn new(repo_check: DirectoryCheck<'a, MC>, etc_check: DirectoryCheck<'a, MC>) -> (check: Self)
        ensures
            check.repo_check == repo_check,
            check.etc_check == etc_check,
    {
        StructureCheck { repo_check, etc_check }
    }

    /// Checks that the repository and its `etc` are directories, in that
    /// order. The result is the verdict on what the two checks said.
    pub fn check(&self, repo: &Repo) -> (checked: Result<(), StructureCheckError>)
        ensures
            exists|there: Result<(), DirectoryCheckError>, etc: Result<(), DirectoryCheckError>|
                checked == #[trigger] structure_verdict(there, etc),
    {
        match self.repo_check.check(repo.path.as_str()) {
            Err(error) => {
                assert(structure_verdict(Err(error), Ok(())) == Err::<(), StructureCheckError>(
                    StructureCheckError::Missing(error),
                ));
                Err(StructureCheckError::Missing(error))
            },
            Ok(()) => {
                let etc = repo.etc();
                match self.etc_check.check(etc.as_str()) {
                    Err(error) => {
                        assert(structure_verdict(Ok(()), Err(error)) == Err::<
                            (),
                            StructureCheckError,
                        >(StructureCheckError::Etc(error)));
                        Err(StructureCheckError::Etc(error))
                    },
                    Ok(()) => {
                        assert(structure_verdict(Ok(()), Ok(())) == Ok::<(), StructureCheckError>(()));
                        Ok(())
                    },
                }
            },
        }
    }
}

} // verus!
