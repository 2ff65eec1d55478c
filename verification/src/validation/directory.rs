//! Is there a directory at a path?
use crate::fs::MetadataChecks;
use vstd::prelude::*;

verus! {

/// Why a path is no directory to work with.
#[derive(Debug, Clone, Copy, PartialEq, Eq, Structural)]
pub enum DirectoryCheckError {
    DoesNotExist,
    IsNotADirectory,
}

/// Checks that directories are there.
#[derive(Debug)]
pub struct DirectoryCheck<'a, MC: MetadataChecks> {
    metadata_checks: &'a MC,
}

/// The verdict on a path: fine where it is a directory, else an error that
/// tells whether anything stands there at all.
pub open spec fn directory_verdict(is_dir: bool, present: bool) -> Result<(), DirectoryCheckError> {
    if is_dir {
        Ok(())
    } else if present {
        Err(DirectoryCheckError::IsNotADirectory)
    } else {
        Err(DirectoryCheckError::DoesNotExist)
    }
}

impl<'a, MC: MetadataChecks> DirectoryCheck<'a, MC> {
    /// What paths are asked about.
    pub closed spec fn metadata_checks(&self) -> &MC {
        self.metadata_checks
    }

    pub fn new(metadata_checks: &'a MC) -> (check: Self)
        ensures
            check.metadata_checks() == metadata_checks,
    {
        DirectoryCheck { metadata_checks }
    }

    /// The verdict on a path by what the file system says of it: see
    /// [`directory_verdict`].
    pub fn verdict(is_dir: bool, present: bool) -> (verdict: Result<(), DirectoryCheckError>)
        ensures
            verdict == directory_verdict(is_dir, present),
    {
        if is_dir {
            Ok(())
        } else if present {
            Err(DirectoryCheckError::IsNotADirectory)
        } else {
            Err(DirectoryCheckError::DoesNotExist)
        }
    }

    /// Checks that `path` is a directory. The file system is asked whether it
    /// is one, and only if not, whether anything is there; the result is the
    /// verdict on those answers.
    pub fn check(&self, path: &str) -> (checked: Result<(), DirectoryCheckError>)
        ensures
            exists|is_dir: bool, present: bool| checked == #[trigger] directory_verdict(is_dir, present),
    {
        if self.metadata_checks.is_dir(path) {
            assert(directory_verdict(true, true) == Ok::<(), DirectoryCheckError>(()));
            return Ok(());
        }
        let present = self.metadata_checks.path_exists(path);
        DirectoryCheck::<MC>::verdict(false, present)
    }
}

} // verus!
