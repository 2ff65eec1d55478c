//! Does one path lie within another?
use crate::fs::{IoError, LinkReader, MetadataChecks};
use crate::paths::{starts_with, starts_with_spec};
use vstd::prelude::*;

verus! {

/// Why a path is not known to lie within a container.
#[derive(Debug, PartialEq, Eq)]
pub enum ContainmentError {
    /// A real path could not be had.
    Io(IoError),
    ContainerNotADirectory,
    NotContained,
}

/// Checks that paths lie within directories.
#[derive(Debug)]
pub struct ContainmentCheck<'a, MC: MetadataChecks, LR: LinkReader> {
    metadata_checks: &'a MC,
    link_reader: &'a LR,
}

/// The verdict on two real paths: the container has to be a directory, and
/// its components the first components of the path.
pub open spec fn containment_verdict(path: Seq<char>, container: Seq<char>, container_is_dir: bool) -> Result<
    (),
    ContainmentError,
> {
    if !container_is_dir {
        Err(ContainmentError::ContainerNotADirectory)
    } else if !starts_with_spec(path, container) {
        Err(ContainmentError::NotContained)
    } else {
        Ok(())
    }
}

impl<'a, MC: MetadataChecks, LR: LinkReader> ContainmentCheck<'a, MC, LR> {
    /// What the container is asked about.
    pub closed spec fn metadata_checks(&self) -> &MC {
        self.metadata_checks
    }

    /// What real paths are had from.
    pub closed spec fn link_reader(&self) -> &LR {
        self.link_reader
    }

    pub fn new(metadata_checks: &'a MC, link_reader: &'a LR) -> (check: Self)
        ensures
            check.metadata_checks() == metadata_checks,
            check.link_reader() == link_reader,
    {
        ContainmentCheck { metadata_checks, link_reader }
    }

    /// The verdict on two real paths: see [`containment_verdict`].
    pub fn verdict(path: &str, container: &str, container_is_dir: bool) -> (verdict: Result<
        (),
        ContainmentError,
    >)
        ensures
            verdict == containment_verdict(path@, container@, container_is_dir),
    {
        if !container_is_dir {
            Err(ContainmentError::ContainerNotADirectory)
        } else if !starts_with(path, container) {
            Err(ContainmentError::NotContained)
        } else {
            Ok(())
        }
    }

    /// Checks that `path` lies within the directory `container`. Both are
    /// made real paths first, the path before the container, and a failure
    /// there is handed on; the result is then the verdict on the two real
    /// paths and on what the file system says of the container.
    pub fn check(&self, path: &str, container: &str) -> (checked: Result<(), ContainmentError>)
        ensures
            checked matches Err(ContainmentError::Io(_)) || exists|
                real_path: Seq<char>,
                real_container: Seq<char>,
                container_is_dir: bool,
            |
                checked == #[trigger] containment_verdict(real_path, real_container, container_is_dir),
    {
        let real_path = match self.link_reader.canonicalize(path) {
            Ok(canonical) => canonical,
            Err(error) => {
                return Err(ContainmentError::Io(error));
            },
        };
        let real_container = match self.link_reader.canonicalize(container) {
            Ok(canonical) => canonical,
            Err(error) => {
                return Err(ContainmentError::Io(error));
            },
        };
        let container_is_dir = self.metadata_checks.is_dir(real_container.as_str());
        ContainmentCheck::<MC, LR>::verdict(
            real_path.as_str(),
            real_container.as_str(),
            container_is_dir,
        )
    }
}

} // verus!
