//! What the library asks of a file system: questions about one path, the
//! listing of a directory, and the reading of links.
//!
//! The traits promise nothing about the answers. Whatever uses them states
//! what it does with each possible answer.
use vstd::prelude::*;

verus! {

/// The reason an operation on the file system failed.
#[derive(Debug, Clone, Copy, PartialEq, Eq, Structural)]
pub enum IoErrorKind {
    NotFound,
    PermissionDenied,
    AlreadyExists,
    TooManyLinks,
    Other,
}

/// A failed operation on the file system.
#[derive(Debug, PartialEq, Eq)]
pub struct IoError {
    pub kind: IoErrorKind,
    pub message: String,
}

pub struct IoErrorView {
    pub kind: IoErrorKind,
    pub message: Seq<char>,
}

impl View for IoError {
    type V = IoErrorView;

    open spec fn view(&self) -> IoErrorView {
        IoErrorView { kind: self.kind, message: self.message@ }
    }
}

impl IoError {
    pub fn new(kind: IoErrorKind, message: String) -> (error: Self)
        ensures
            error.kind == kind,
            error.message == message,
    {
        IoError { kind, message }
    }

    /// An error of the given kind that says nothing more.
    pub fn from_kind(kind: IoErrorKind) -> (error: Self)
        ensures
            error@ == (IoErrorView { kind, message: Seq::empty() }),
    {
        IoError { kind, message: String::new() }
    }
}

impl Clone for IoError {
    fn clone(&self) -> (copy: Self)
        ensures
            copy == *self,
    {
        IoError { kind: self.kind, message: self.message.clone() }
    }
}

/// One entry of a directory listing: the entry's path, or why it could not be had.
pub type DirEntryResult = Result<String, IoError>;

/// Questions about what stands at a path.
pub trait MetadataChecks {
    fn is_dir(&self, path: &str) -> bool;

    fn is_file(&self, path: &str) -> bool;

    fn is_symlink(&self, path: &str) -> bool;

    fn path_exists(&self, path: &str) -> bool;

    /// A directory that is not reached through a link.
    fn is_real_dir(&self, path: &str) -> bool {
        self.is_dir(path) && !self.is_symlink(path)
    }
}

/// The entries of a directory.
pub trait DirectoryListing {
    fn read_dir(&self, path: &str) -> Result<Vec<DirEntryResult>, IoError>;
}

/// The content of a link, and the real path behind a path.
pub trait LinkReader {
    fn read_link(&self, path: &str) -> Result<String, IoError>;

    fn canonicalize(&self, path: &str) -> Result<String, IoError>;
}

/// Everything the library reads from a file system.
pub trait FsRead: MetadataChecks + DirectoryListing + LinkReader {

}

impl<T: MetadataChecks + DirectoryListing + LinkReader> FsRead for T {

}

} // verus!
