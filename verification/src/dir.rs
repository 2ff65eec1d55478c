//! Directories that carry their path, and a label to speak of them by.
use vstd::prelude::*;

verus! {

/// A name for a kind of directory, as shown to the user.
pub trait Labeled {
    const LABEL: &'static str;
}

/// A directory known by its path.
pub trait Dir: Sized {
    /// The text of the directory's path.
    spec fn path_text(&self) -> Seq<char>;

    fn from_path(path: String) -> (dir: Self)
        ensures
            dir.path_text() == path@,
    ;

    fn as_path(&self) -> (path: &str)
        ensures
            path@ == self.path_text(),
    ;
}

pub trait LabeledDir: Dir + Labeled {

}

impl<D: Dir + Labeled> LabeledDir for D {

}

} // verus!
