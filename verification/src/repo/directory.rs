//! What each entry of a directory is to the repository: mapped, ignored, or a
//! directory to descend into.
use crate::config::spec::{SpecContext, SpecContextView};
use crate::fs::{DirEntryResult, DirectoryListing, IoError, MetadataChecks};
use crate::mapping::{LocatedTarget, LocatedTargetView};
use crate::paths::{file_name, file_name_spec};
use vstd::prelude::*;

verus! {

/// Why an entry is left alone.
#[derive(Debug, Clone, Copy, PartialEq, Eq, Structural)]
pub enum IgnoreType {
    /// The directory's specification names it as ignored.
    Explicit,
    /// Nothing is said of it and it is no directory to descend into.
    Implicit,
    /// Its name begins with a dot.
    Dot,
}

/// What an entry of a directory is to the repository.
#[derive(Debug, PartialEq, Eq)]
pub enum RepoDirItem {
    /// The entry of this name is linked as the target says.
    Mapping(String, LocatedTarget),
    /// The entry of this name is left alone.
    Ignore(IgnoreType, String),
    /// The entry is a directory to descend into.
    SubDir,
}

pub enum RepoDirItemView {
    Mapping(Seq<char>, LocatedTargetView),
    Ignore(IgnoreType, Seq<char>),
    SubDir,
}

impl View for RepoDirItem {
    type V = RepoDirItemView;

    open spec fn view(&self) -> RepoDirItemView {
        match self {
            RepoDirItem::Mapping(name, target) => RepoDirItemView::Mapping(name@, target@),
            RepoDirItem::Ignore(kind, name) => RepoDirItemView::Ignore(*kind, name@),
            RepoDirItem::SubDir => RepoDirItemView::SubDir,
        }
    }
}

/// An entry's path with what the entry is.
#[derive(Debug, PartialEq, Eq)]
pub struct RepoDirItemWithPath {
    pub path: String,
    pub item: RepoDirItem,
}

pub struct RepoDirItemWithPathView {
    pub path: Seq<char>,
    pub item: RepoDirItemView,
}

impl View for RepoDirItemWithPath {
    type V = RepoDirItemWithPathView;

    open spec fn view(&self) -> RepoDirItemWithPathView {
        RepoDirItemWithPathView { path: self.path@, item: self.item@ }
    }
}

impl RepoDirItemWithPath {
    pub fn new(path: String, item: RepoDirItem) -> (entry: Self)
        ensures
            entry.path == path,
            entry.item == item,
    {
        RepoDirItemWithPath { path, item }
    }
}

/// Why the entries of a directory could not be classified.
#[derive(Debug, PartialEq, Eq)]
pub enum RepoDirVisitorError {
    /// The directory, or one of its entries, could not be read.
    Io(IoError),
    /// The path of an entry has no file name.
    CannotGetFileName(String),
}

/// Whether a name begins with a dot.
pub open spec fn is_dot_name(name: Seq<char>) -> bool {
    name.len() > 0 && name[0] == '.'
}

/// Whether the name alone, with the directory's context, decides what the
/// entry is: it begins with a dot, is to be ignored, or is mapped.
pub open spec fn decided_by_name(name: Seq<char>, context: SpecContextView) -> bool {
    is_dot_name(name) || context.ignores.contains(name) || context.targets.contains_key(name)
}

/// What the entry `name` is in a directory with this context. The first rule
/// that applies decides: a leading dot, then the ignored names, then the
/// mapped names, and only then whether the entry is a real directory.
pub open spec fn classified(name: Seq<char>, context: SpecContextView, is_real_dir: bool) -> RepoDirItemView {
    if is_dot_name(name) {
        RepoDirItemView::Ignore(IgnoreType::Dot, name)
    } else if context.ignores.contains(name) {
        RepoDirItemView::Ignore(IgnoreType::Explicit, name)
    } else if context.targets.contains_key(name) {
        RepoDirItemView::Mapping(name, context.targets[name])
    } else if !is_real_dir {
        RepoDirItemView::Ignore(IgnoreType::Implicit, name)
    } else {
        RepoDirItemView::SubDir
    }
}

/// Whether `entry` is what some entry at its path is in a directory with
/// this context, whatever the file system said of its being a directory.
pub open spec fn classified_in(entry: RepoDirItemWithPathView, context: SpecContextView) -> bool {
    match file_name_spec(entry.path) {
        Some(name) => exists|is_real_dir: bool| entry.item == classified(name, context, is_real_dir),
        None => false,
    }
}

/// What the name alone says of an entry, where it decides.
fn classify_by_name(name: &String, context: &SpecContext) -> (item: Option<RepoDirItem>)
    ensures
        match item {
            Some(item) => decided_by_name(name@, context@) && forall|is_real_dir: bool|
                item@ == #[trigger] classified(name@, context@, is_real_dir),
            None => !decided_by_name(name@, context@),
        },
{
    if !name.as_str().is_empty() && name.as_str().get_char(0) == '.' {
        return Some(RepoDirItem::Ignore(IgnoreType::Dot, name.clone()));
    }
    if context.ignores.contains(name.as_str()) {
        return Some(RepoDirItem::Ignore(IgnoreType::Explicit, name.clone()));
    }
    match context.targets.get(name.as_str()) {
        Some(target) => Some(RepoDirItem::Mapping(name.clone(), target.clone())),
        None => None,
    }
}

/// What an entry is when its name does not decide.
fn classify_by_kind(name: String, is_real_dir: bool) -> (item: RepoDirItem)
    ensures
        forall|context: SpecContextView|
            !decided_by_name(name@, context) ==> item@ == #[trigger] classified(
                name@,
                context,
                is_real_dir,
            ),
{
    if !is_real_dir {
        RepoDirItem::Ignore(IgnoreType::Implicit, name)
    } else {
        RepoDirItem::SubDir
    }
}

/// What the entry `name` is in a directory with this context: see [`classified`].
pub fn classify(name: String, context: &SpecContext, is_real_dir: bool) -> (item: RepoDirItem)
    ensures
        item@ == classified(name@, context@, is_real_dir),
{
    match classify_by_name(&name, context) {
        Some(item) => item,
        None => classify_by_kind(name, is_real_dir),
    }
}

/// The entries of one directory, to be classified under its context.
pub struct DirVisitor<'a, 'b, MC: MetadataChecks> {
    contents: Vec<DirEntryResult>,
    context: &'a SpecContext,
    metadata_checks: &'b MC,
}

/// Whether an entry of a listing can be classified: it was read, and its
/// path has a file name.
pub open spec fn classifiable(entry: DirEntryResult) -> bool {
    match entry {
        Ok(path) => file_name_spec(path@) is Some,
        Err(_) => false,
    }
}

/// The error for an entry whose path has no file name.
pub open spec fn is_nameless(error: RepoDirVisitorError, path: Seq<char>) -> bool {
    file_name_spec(path) is None && match error {
        RepoDirVisitorError::CannotGetFileName(named) => named@ == path,
        RepoDirVisitorError::Io(_) => false,
    }
}

/// The error that an entry which cannot be classified gives rise to.
pub open spec fn is_failure_of(error: RepoDirVisitorError, entry: DirEntryResult) -> bool {
    match entry {
        Ok(path) => is_nameless(error, path@),
        Err(cause) => match error {
            RepoDirVisitorError::Io(given) => given@ == cause@,
            RepoDirVisitorError::CannotGetFileName(_) => false,
        },
    }
}

impl<'a, 'b, MC: MetadataChecks> DirVisitor<'a, 'b, MC> {
    /// The listed entries.
    pub closed spec fn entries(&self) -> Seq<DirEntryResult> {
        self.contents@
    }

    /// The context that the entries are classified under.
    pub closed spec fn context(&self) -> SpecContext {
        *self.context
    }

    /// What entries are asked about.
    pub closed spec fn metadata_checks(&self) -> &MC {
        self.metadata_checks
    }

    pub fn new(contents: Vec<DirEntryResult>, context: &'a SpecContext, metadata_checks: &'b MC) -> (visitor:
        Self)
        ensures
            visitor.entries() == contents@,
            visitor.context() == *context,
            visitor.metadata_checks() == metadata_checks,
    {
        DirVisitor { contents, context, metadata_checks }
    }

    /// What the entry at `path` is. The name decides where it can; else the
    /// file system is asked whether the entry is a real directory. A path
    /// without a file name is an error.
    pub fn visit(&self, path: &str) -> (visited: Result<RepoDirItem, RepoDirVisitorError>)
        ensures
            match visited {
                Ok(item) => classified_in(
                    RepoDirItemWithPathView { path: path@, item: item@ },
                    self.context()@,
                ),
                Err(error) => is_nameless(error, path@),
            },
            file_name_spec(path@) is Some ==> visited is Ok,
    {
        match file_name(path) {
            None => Err(RepoDirVisitorError::CannotGetFileName(path.to_owned())),
            Some(name) => {
                let item = match classify_by_name(&name, self.context) {
                    Some(item) => item,
                    None => {
                        let is_real_dir = self.metadata_checks.is_real_dir(path);
                        let item = classify_by_kind(name, is_real_dir);
                        assert(item@ == classified(name@, self.context@, is_real_dir));
                        item
                    },
                };
                Ok(item)
            },
        }
    }

    /// Classifies the entries in the order of the listing. The first entry
    /// that cannot be classified ends the visit with its error; where every
    /// entry can be, the result holds each one with its path.
    pub fn collect(self) -> (collected: Result<Vec<RepoDirItemWithPath>, RepoDirVisitorError>)
        ensures
            match collected {
                Ok(items) => {
                    &&& items.len() == self.entries().len()
                    &&& forall|i: int|
                        0 <= i < items.len() ==> {
                            &&& self.entries()[i] is Ok
                            &&& (#[trigger] items[i]).path@ == self.entries()[i]->Ok_0@
                            &&& classified_in(items[i]@, self.context()@)
                        }
                },
                Err(error) => exists|i: int|
                    {
                        &&& 0 <= i < self.entries().len()
                        &&& is_failure_of(error, #[trigger] self.entries()[i])
                        &&& forall|j: int| 0 <= j < i ==> classifiable(#[trigger] self.entries()[j])
                    },
            },
            collected is Ok <==> forall|i: int|
                0 <= i < self.entries().len() ==> classifiable(#[trigger] self.entries()[i]),
    {
        let mut items: Vec<RepoDirItemWithPath> = Vec::new();
        let mut i: usize = 0;
        while i < self.contents.len()
            invariant
                i <= self.contents.len(),
                items.len() == i,
                forall|j: int| 0 <= j < i ==> classifiable(#[trigger] self.contents[j]),
                forall|j: int|
                    0 <= j < i ==> {
                        &&& (#[trigger] items[j]).path@ == self.contents[j]->Ok_0@
                        &&& classified_in(items[j]@, self.context@)
                    },
            decreases self.contents.len() - i,
        {
            match &self.contents[i] {
                Err(cause) => {
                    let error = RepoDirVisitorError::Io(cause.clone());
                    return Err(error);
                },
                Ok(path) => {
                    match self.visit(path.as_str()) {
                        Ok(item) => {
                            items.push(RepoDirItemWithPath::new(path.clone(), item));
                        },
                        Err(error) => {
                            return Err(error);
                        },
                    }
                },
            }
            i += 1;
        }
        Ok(items)
    }
}

/// Lists directories and hands their entries over for classification.
#[derive(Debug)]
pub struct DirVisitation<'a, MC: MetadataChecks, DL: DirectoryListing> {
    metadata_checks: &'a MC,
    directory_listing: &'a DL,
}

impl<'b, MC: MetadataChecks, DL: DirectoryListing> DirVisitation<'b, MC, DL> {
    /// What entries are asked about.
    pub closed spec fn metadata_checks(&self) -> &MC {
        self.metadata_checks
    }

    /// What directories are listed with.
    pub closed spec fn directory_listing(&self) -> &DL {
        self.directory_listing
    }

    pub fn new(metadata_checks: &'b MC, directory_listing: &'b DL) -> (visitation: Self)
        ensures
            visitation.metadata_checks() == metadata_checks,
            visitation.directory_listing() == directory_listing,
    {
        DirVisitation { metadata_checks, directory_listing }
    }

    /// Lists the directory `path`, for its entries to be classified under
    /// `context`. Only a failure of the listing is an error.
    pub fn visit<'a>(&self, path: &str, context: &'a SpecContext) -> (visitor: Result<
        DirVisitor<'a, 'b, MC>,
        RepoDirVisitorError,
    >)
        ensures
            match visitor {
                Ok(visitor) => visitor.context() == *context && visitor.metadata_checks()
                    == self.metadata_checks(),
                Err(error) => error is Io,
            },
    {
        match self.directory_listing.read_dir(path) {
            Ok(contents) => Ok(DirVisitor::new(contents, context, self.metadata_checks)),
            Err(error) => Err(RepoDirVisitorError::Io(error)),
        }
    }
}

/// An entry whose name begins with a dot is ignored for that reason, whatever
/// the directory declares and whatever the entry is.
pub proof fn lemma_dot_names_are_ignored(name: Seq<char>, context: SpecContextView, is_real_dir: bool)
    requires
        is_dot_name(name),
    ensures
        classified(name, context, is_real_dir) == RepoDirItemView::Ignore(IgnoreType::Dot, name),
{
}

/// In a directory that declares no targets, no entry is mapped.
pub proof fn lemma_no_targets_no_mapping(name: Seq<char>, context: SpecContextView, is_real_dir: bool)
    requires
        context.targets == Map::<Seq<char>, LocatedTargetView>::empty(),
    ensures
        !(classified(name, context, is_real_dir) is Mapping),
{
}

} // verus!
