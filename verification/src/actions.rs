//! What the library changes on a file system: directories and links.
use crate::fs::{IoError, IoErrorKind, IoErrorView, MetadataChecks};
use vstd::prelude::*;
use vstd::string::StringExecFns;

verus! {

/// A change to the file system that failed.
#[derive(Debug, PartialEq, Eq)]
pub enum Error {
    Io(IoError),
}

impl Error {
    /// The failure of the given kind, with nothing more said.
    pub fn from_io_kind(kind: IoErrorKind) -> (error: Self)
        ensures
            error matches Error::Io(cause) && cause@ == (IoErrorView { kind, message: Seq::empty() }),
    {
        Error::Io(IoError::from_kind(kind))
    }

    /// Whether the change failed because something stands in its place.
    pub fn is_already_exists(&self) -> (collided: bool)
        ensures
            collided == (self matches Error::Io(cause) && cause.kind == IoErrorKind::AlreadyExists),
    {
        match self {
            Error::Io(cause) => match cause.kind {
                IoErrorKind::AlreadyExists => true,
                _ => false,
            },
        }
    }
}

/// Changes to the file system. The traits promise nothing of their outcome.
pub trait Actions {
    /// Creates the directory `path`, with the directories above it.
    fn make_dir(&self, path: &str) -> Result<(), Error>;

    /// Creates at `target` a symbolic link that holds `path`.
    fn symlink(&self, target: &str, path: &str) -> Result<(), Error>;
}

/// Actions that change nothing, and fail where a real link could not be created.
#[derive(Debug)]
pub struct DryActions<'a, MC: MetadataChecks> {
    metadata_checks: &'a MC,
}

/// The outcome of a link that is only rehearsed: it fails exactly where
/// something stands at its target already, and says so.
pub open spec fn rehearsed_link(target_exists: bool, outcome: Result<(), Error>) -> bool {
    match outcome {
        Ok(_) => !target_exists,
        Err(Error::Io(cause)) => target_exists && cause@ == (IoErrorView {
            kind: IoErrorKind::AlreadyExists,
            message: "Target already exists"@,
        }),
    }
}

impl<'a, MC: MetadataChecks> DryActions<'a, MC> {
    /// What is asked whether a target is taken.
    pub closed spec fn metadata_checks(&self) -> &MC {
        self.metadata_checks
    }

    pub fn new(metadata_checks: &'a MC) -> (actions: Self)
        ensures
            actions.metadata_checks() == metadata_checks,
    {
        DryActions { metadata_checks }
    }

    /// The outcome of a rehearsed link: see [`rehearsed_link`].
    pub fn rehearse_link(target_exists: bool) -> (outcome: Result<(), Error>)
        ensures
            rehearsed_link(target_exists, outcome),
    {
        if target_exists {
            Err(
                Error::Io(
                    IoError::new(IoErrorKind::AlreadyExists, String::from_str("Target already exists")),
                ),
            )
        } else {
            Ok(())
        }
    }
}

impl<'a, MC: MetadataChecks> Actions for DryActions<'a, MC> {
    /// Creates nothing, and says that all went well.
    fn make_dir(&self, path: &str) -> (made: Result<(), Error>)
        ensures
            made is Ok,
    {
        Ok(())
    }

    /// Creates nothing. The file system is asked whether something stands
    /// at `target`; the outcome is that of a rehearsed link for its answer.
    fn symlink(&self, target: &str, path: &str) -> (linked: Result<(), Error>)
        ensures
            exists|target_exists: bool| #[trigger] rehearsed_link(target_exists, linked),
    {
        let target_exists = self.metadata_checks.path_exists(target);
        let linked = DryActions::<MC>::rehearse_link(target_exists);
        assert(rehearsed_link(target_exists, linked));
        linked
    }
}

} // verus!
