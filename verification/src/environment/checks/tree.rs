//! Are the directories of the environment there, and if not, may they be made?
use crate::action::directory_creator::{DirectoryCreator, DirectoryCreatorError};
use crate::actions::Actions;
use crate::dir::{Dir, Labeled, LabeledDir};
use crate::environment::types::{CacheDir, ConfigDir, DataDir, Environment, StateDir};
use crate::fs::MetadataChecks;
use crate::prompting::Prompter;
use crate::validation::directory::{DirectoryCheck, DirectoryCheckError};
use vstd::prelude::*;

verus! {

/// A directory of the environment that is neither there nor was made.
#[derive(Debug, PartialEq, Eq)]
#[allow(inconsistent_fields)]
pub enum LayoutCheckError {
    Check { label: &'static str, path: String, error: DirectoryCheckError },
    Creation { label: &'static str, path: String, error: DirectoryCreatorError },
}

/// Checks the directories of the environment, and has the missing ones made
/// where that is wanted.
#[derive(Debug)]
pub struct LayoutCheck<'a, MC: MetadataChecks, A: Actions, PR: Prompter> {
    pub directory_checker: DirectoryCheck<'a, MC>,
    pub directory_creator: DirectoryCreator<'a, A, PR>,
    pub yes: bool,
    pub create_directories: bool,
}

/// Whether a directory is to be made after its check: only one that is
/// missing, and only where making directories is wanted.
pub open spec fn calls_for_creation(
    checked: Result<(), DirectoryCheckError>,
    create_directories: bool,
) -> bool {
    create_directories && checked == Err::<(), DirectoryCheckError>(DirectoryCheckError::DoesNotExist)
}

/// Whether the error speaks of the directory with this label and path.
pub open spec fn names_dir(error: LayoutCheckError, label: Seq<char>, path: Seq<char>) -> bool {
    match error {
        LayoutCheckError::Check { label: named, path: at, error: _ } => named@ == label && at@
            == path,
        LayoutCheckError::Creation { label: named, path: at, error: _ } => named@ == label && at@
            == path,
    }
}

/// Whether a check that makes directories as `yes` and `create_directories`
/// say can end in this error: a directory that is missing is no error of
/// the check where directories are made, making fails only where
/// directories are made, and without asking only by the making itself.
pub open spec fn is_layout_failure(error: LayoutCheckError, yes: bool, create_directories: bool) -> bool {
    match error {
        LayoutCheckError::Check { label: _, path: _, error } => !calls_for_creation(
            Err(error),
            create_directories,
        ),
        LayoutCheckError::Creation { label: _, path: _, error } => create_directories && (yes
            ==> error is Action),
    }
}

/// What comes of the check of a directory that is not to be made: its
/// verdict, with an error that names the directory.
pub open spec fn is_checked_outcome(
    checked: Result<(), DirectoryCheckError>,
    label: Seq<char>,
    path: Seq<char>,
    outcome: Result<(), LayoutCheckError>,
) -> bool {
    match checked {
        Ok(_) => outcome is Ok,
        Err(cause) => match outcome {
            Err(LayoutCheckError::Check { label: named, path: at, error }) => named@ == label
                && at@ == path && error == cause,
            _ => false,
        },
    }
}

/// What comes of having a directory made: the outcome of making it, with
/// an error that names the directory.
pub open spec fn is_made_outcome(
    made: Result<(), DirectoryCreatorError>,
    label: Seq<char>,
    path: Seq<char>,
    outcome: Result<(), LayoutCheckError>,
) -> bool {
    match made {
        Ok(_) => outcome is Ok,
        Err(cause) => match outcome {
            Err(LayoutCheckError::Creation { label: named, path: at, error }) => named@ == label
                && at@ == path && error == cause,
            _ => false,
        },
    }
}

impl<'a, MC: MetadataChecks, A: Actions, PR: Prompter> LayoutCheck<'a, MC, A, PR> {
    pub fn new(
        directory_checker: DirectoryCheck<'a, MC>,
        directory_creator: DirectoryCreator<'a, A, PR>,
        yes: bool,
        create_directories: bool,
    ) -> (check: Self)
        ensures
            check.directory_checker == directory_checker,
            check.directory_creator == directory_creator,
            check.yes == yes,
            check.create_directories == create_directories,
    {
        LayoutCheck { directory_checker, directory_creator, yes, create_directories }
    }

    /// Whether a directory is to be made after its check: see [`calls_for_creation`].
    pub fn wants_creation(checked: &Result<(), DirectoryCheckError>, create_directories: bool) -> (wanted:
        bool)
        ensures
            wanted == calls_for_creation(*checked, create_directories),
    {
        match checked {
            Err(DirectoryCheckError::DoesNotExist) => create_directories,
            _ => false,
        }
    }

    /// What comes of the check of a directory that is not to be made: see
    /// [`is_checked_outcome`].
    pub fn checked_outcome(
        checked: Result<(), DirectoryCheckError>,
        label: &'static str,
        path: &str,
    ) -> (outcome: Result<(), LayoutCheckError>)
        ensures
            is_checked_outcome(checked, label@, path@, outcome),
    {
        match checked {
            Ok(()) => Ok(()),
            Err(error) => Err(LayoutCheckError::Check { label, path: path.to_owned(), error }),
        }
    }

    /// What comes of having a directory made: see [`is_made_outcome`].
    pub fn made_outcome(
        made: Result<(), DirectoryCreatorError>,
        label: &'static str,
        path: &str,
    ) -> (outcome: Result<(), LayoutCheckError>)
        ensures
            is_made_outcome(made, label@, path@, outcome),
    {
        match made {
            Ok(()) => Ok(()),
            Err(error) => Err(LayoutCheckError::Creation { label, path: path.to_owned(), error }),
        }
    }

    /// Checks that `dir` is there, and has it made where it is missing and
    /// that is wanted: [`Self::wants_creation`] says whether, and
    /// [`Self::checked_outcome`] and [`Self::made_outcome`] what comes of
    /// the check and of the making. An error names the directory and is one
    /// that such a check can end in: see [`is_layout_failure`].
    fn check_or_create<D: LabeledDir>(&self, dir: &D) -> (checked: Result<(), LayoutCheckError>)
        ensures
            match checked {
                Ok(_) => true,
                Err(error) => names_dir(error, D::LABEL@, dir.path_text()) && is_layout_failure(
                    error,
                    self.yes,
                    self.create_directories,
                ),
            },
    {
        let checked = self.directory_checker.check(dir.as_path());
        if LayoutCheck::<MC, A, PR>::wants_creation(&checked, self.create_directories) {
            let made = self.directory_creator.create(dir, self.yes);
            LayoutCheck::<MC, A, PR>::made_outcome(made, D::LABEL, dir.as_path())
        } else {
            LayoutCheck::<MC, A, PR>::checked_outcome(checked, D::LABEL, dir.as_path())
        }
    }

    /// Checks the configuration, data, state and cache directories, in that
    /// order; the first that is neither there nor made ends the check, with
    /// an error that names it.
    pub fn check(&self, environment: &Environment) -> (checked: Result<(), LayoutCheckError>)
        ensures
            match checked {
                Ok(_) => true,
                Err(error) => {
                    &&& is_layout_failure(error, self.yes, self.create_directories)
                    &&& {
                        ||| names_dir(error, ConfigDir::LABEL@, environment@.config)
                        ||| names_dir(error, DataDir::LABEL@, environment@.data)
                        ||| names_dir(error, StateDir::LABEL@, environment@.state)
                        ||| names_dir(error, CacheDir::LABEL@, environment@.cache)
                    }
                },
            },
    {
        match self.check_or_create(&environment.config) {
            Ok(()) => {},
            Err(error) => {
                return Err(error);
            },
        }
        match self.check_or_create(&environment.data) {
            Ok(()) => {},
            Err(error) => {
                return Err(error);
            },
        }
        match self.check_or_create(&environment.state) {
            Ok(()) => {},
            Err(error) => {
                return Err(error);
            },
        }
        self.check_or_create(&environment.cache)
    }
}

} // verus!
