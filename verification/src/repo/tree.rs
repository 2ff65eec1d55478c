//! The walk through the repository that gathers its mappings.
use crate::collections::{texts, StringMap, StringSet};
use crate::config::file::ConfigFileReadError;
use crate::config::spec::{
    context_of, context_of_read, declared_target, lemma_no_entries_no_targets, with_section,
    MappingView, SpecContext, SpecContextView, SpecSource, SpecView,
};
use crate::fs::{DirectoryListing, IoError, MetadataChecks};
use crate::mapping::{Destination, DotMap, DotMapView, DotMaps, LocatedTargetView, TargetView};
use crate::paths::{file_name_spec, is_plain_name, lemma_file_name_of_join, spec_join};
use crate::repo::directory::{
    classified_in, is_dot_name, DirVisitation, IgnoreType, RepoDirItem, RepoDirItemView, RepoDirItemWithPath,
    RepoDirItemWithPathView, RepoDirVisitorError,
};
use vstd::prelude::*;
use vstd::string::StringExecFns;

verus! {

/// The names in brackets, with a comma and a space between them.
pub open spec fn bracketed(names: Seq<Seq<char>>) -> Seq<char>
    decreases names.len(),
{
    if names.len() == 0 {
        Seq::empty()
    } else if names.len() == 1 {
        seq!['['] + names[0] + seq![']']
    } else {
        bracketed(names.drop_last()) + seq![',', ' '] + seq!['['] + names.last() + seq![']']
    }
}

/// Whether `names` lists the texts of `set`, each once.
pub open spec fn enumerates(names: Seq<Seq<char>>, set: Set<Seq<char>>) -> bool {
    names.no_duplicates() && names.to_set() == set
}

/// The names in brackets: see [`bracketed`].
fn bracket_list(names: &Vec<String>) -> (list: String)
    ensures
        list@ == bracketed(texts(names@)),
{
    let mut list = String::new();
    let mut i: usize = 0;
    proof {
        reveal_strlit("[");
        reveal_strlit("]");
        reveal_strlit(", ");
    }
    while i < names.len()
        invariant
            i <= names.len(),
            list@ == bracketed(texts(names@).take(i as int)),
            "["@ == seq!['['],
            "]"@ == seq![']'],
            ", "@ == seq![',', ' '],
        decreases names.len() - i,
    {
        if i > 0 {
            list = list.concat(", ");
        }
        list = list.concat("[").concat(names[i].as_str()).concat("]");
        proof {
            let seen = texts(names@).take(i + 1);
            assert(seen.drop_last() =~= texts(names@).take(i as int));
        }
        i += 1;
    }
    proof {
        assert(texts(names@).take(names.len() as int) =~= texts(names@));
    }
    list
}

/// The texts of a set in brackets, in some order.
fn hash_set_to_string(hs: &StringSet) -> (list: String)
    ensures
        exists|names: Seq<Seq<char>>| enumerates(names, hs@) && list@ == #[trigger] bracketed(names),
{
    let names = hs.to_vec();
    bracket_list(&names)
}

/// What a walk notes of one directory for its diagnostics.
#[derive(Debug)]
pub struct DirData {
    pub path: String,
    /// The declared names that no entry has answered to.
    pub expected_targets: StringSet,
    /// The names that were ignored without having been declared.
    pub implicit_ignores: StringSet,
}

pub struct DirDataView {
    pub path: Seq<char>,
    pub expected_targets: Set<Seq<char>>,
    pub implicit_ignores: Set<Seq<char>>,
}

impl View for DirData {
    type V = DirDataView;

    open spec fn view(&self) -> DirDataView {
        DirDataView {
            path: self.path@,
            expected_targets: self.expected_targets@,
            implicit_ignores: self.implicit_ignores@,
        }
    }
}

/// The warning about entries that were ignored without having been declared.
pub open spec fn implicit_warning(path: Seq<char>, list: Seq<char>) -> Seq<char> {
    "The following in \""@ + path
        + "\" were not mentioned in .dot, and are being ignored implicitly: "@ + list
}

/// The warning about declared names that no entry answered to.
pub open spec fn missing_warning(path: Seq<char>, list: Seq<char>) -> Seq<char> {
    "The .dot in \""@ + path + "\" referenced the following, but they were not found: "@ + list
}

/// The warnings for a directory, given its ignored and its missing names in
/// the order they are listed in: one for each list that is not empty.
pub open spec fn warnings_for(path: Seq<char>, ignored: Seq<Seq<char>>, missing: Seq<Seq<char>>) -> Seq<
    Seq<char>,
> {
    let about_ignored = if ignored.len() > 0 {
        seq![implicit_warning(path, bracketed(ignored))]
    } else {
        Seq::empty()
    };
    let about_missing = if missing.len() > 0 {
        seq![missing_warning(path, bracketed(missing))]
    } else {
        Seq::empty()
    };
    about_ignored + about_missing
}

/// The notes on a directory before any of its entries was seen.
pub open spec fn fresh_data(path: Seq<char>, context: SpecContextView) -> DirDataView {
    DirDataView { path, expected_targets: context.targets.dom(), implicit_ignores: Set::empty() }
}

impl DirData {
    /// The notes on the directory `path` before any of its entries was seen:
    /// every declared name is still expected.
    pub fn new(path: String, context: &SpecContext) -> (data: Self)
        ensures
            data@ == fresh_data(path@, context@),
    {
        let data = DirData {
            path,
            expected_targets: context.targets.key_set(),
            implicit_ignores: StringSet::new(),
        };
        assert(data@.expected_targets =~= context@.targets.dom());
        data
    }

    /// The warnings that the notes call for: see [`warnings_for`]. The names
    /// of each list come in some order, each once.
    pub fn report(&self) -> (warnings: Vec<String>)
        ensures
            exists|ignored: Seq<Seq<char>>, missing: Seq<Seq<char>>|
                #![trigger warnings_for(self.path@, ignored, missing)]
                enumerates(ignored, self.implicit_ignores@) && enumerates(
                    missing,
                    self.expected_targets@,
                ) && texts(warnings@) == warnings_for(self.path@, ignored, missing),
    {
        let ghost mut ignored: Seq<Seq<char>> = Seq::empty();
        let ghost mut missing: Seq<Seq<char>> = Seq::empty();
        let mut warnings: Vec<String> = Vec::new();
        if !self.implicit_ignores.is_empty() {
            let list = hash_set_to_string(&self.implicit_ignores);
            proof {
                ignored = choose|names: Seq<Seq<char>>|
                    enumerates(names, self.implicit_ignores@) && list@ == #[trigger] bracketed(names);
                assert(ignored.len() > 0) by {
                    if ignored.len() == 0 {
                        assert(ignored.to_set() =~= Set::<Seq<char>>::empty());
                    }
                }
            }
            let warning = String::from_str("The following in \"").concat(self.path.as_str()).concat(
                "\" were not mentioned in .dot, and are being ignored implicitly: ",
            ).concat(list.as_str());
            warnings.push(warning);
        }
        if !self.expected_targets.is_empty() {
            let list = hash_set_to_string(&self.expected_targets);
            proof {
                missing = choose|names: Seq<Seq<char>>|
                    enumerates(names, self.expected_targets@) && list@ == #[trigger] bracketed(names);
                assert(missing.len() > 0) by {
                    if missing.len() == 0 {
                        assert(missing.to_set() =~= Set::<Seq<char>>::empty());
                    }
                }
            }
            let warning = String::from_str("The .dot in \"").concat(self.path.as_str()).concat(
                "\" referenced the following, but they were not found: ",
            ).concat(list.as_str());
            warnings.push(warning);
        }
        proof {
            assert(ignored.to_set() =~= self.implicit_ignores@);
            assert(missing.to_set() =~= self.expected_targets@);
            assert(texts(warnings@) =~= warnings_for(self.path@, ignored, missing));
        }
        warnings
    }
}

/// Why a walk was given up.
#[derive(Debug, PartialEq, Eq)]
pub enum TreeTraverserError {
    Io(IoError),
    /// The specification of a directory could not be read.
    ConfigFile(ConfigFileReadError),
    /// The entries of a directory could not be classified.
    DirVisitor(RepoDirVisitorError),
}

/// The views of the mappings in a map.
pub open spec fn dot_map_views(maps: Map<Seq<char>, DotMap>) -> Map<Seq<char>, DotMapView> {
    maps.map_values(|map: DotMap| map@)
}

/// The mappings once `entry` was consumed: a mapped entry is put under its
/// path, in place of what was there.
pub open spec fn mapping_with(mapping: Map<Seq<char>, DotMapView>, entry: RepoDirItemWithPathView) -> Map<
    Seq<char>,
    DotMapView,
> {
    match entry.item {
        RepoDirItemView::Mapping(_, target) => mapping.insert(
            entry.path,
            DotMapView { source: entry.path, target },
        ),
        _ => mapping,
    }
}

/// The notes once `entry` was consumed: a mapped name is no longer expected,
/// and a name ignored without having been declared is noted.
pub open spec fn data_with(data: DirDataView, entry: RepoDirItemWithPathView) -> DirDataView {
    match entry.item {
        RepoDirItemView::Mapping(name, _) => DirDataView {
            expected_targets: data.expected_targets.remove(name),
            ..data
        },
        RepoDirItemView::Ignore(kind, name) => if kind == IgnoreType::Implicit {
            DirDataView { implicit_ignores: data.implicit_ignores.insert(name), ..data }
        } else {
            data
        },
        RepoDirItemView::SubDir => data,
    }
}

/// The directory to descend into for `entry`, if it is one.
pub open spec fn descent(entry: RepoDirItemWithPathView) -> Option<Seq<char>> {
    match entry.item {
        RepoDirItemView::SubDir => Some(entry.path),
        _ => None,
    }
}

/// The mappings once all of `entries` were consumed, in order.
pub open spec fn mapping_with_all(
    mapping: Map<Seq<char>, DotMapView>,
    entries: Seq<RepoDirItemWithPathView>,
) -> Map<Seq<char>, DotMapView>
    decreases entries.len(),
{
    if entries.len() == 0 {
        mapping
    } else {
        mapping_with(mapping_with_all(mapping, entries.drop_last()), entries.last())
    }
}

/// The notes once all of `entries` were consumed, in order.
pub open spec fn data_with_all(data: DirDataView, entries: Seq<RepoDirItemWithPathView>) -> DirDataView
    decreases entries.len(),
{
    if entries.len() == 0 {
        data
    } else {
        data_with(data_with_all(data, entries.drop_last()), entries.last())
    }
}

/// The directories to descend into for `entries`, in order.
pub open spec fn descents(entries: Seq<RepoDirItemWithPathView>) -> Seq<Seq<char>>
    decreases entries.len(),
{
    if entries.len() == 0 {
        Seq::empty()
    } else {
        match descent(entries.last()) {
            Some(path) => descents(entries.drop_last()).push(path),
            None => descents(entries.drop_last()),
        }
    }
}

/// The views of a sequence of classified entries.
pub open spec fn entry_views(entries: Seq<RepoDirItemWithPath>) -> Seq<RepoDirItemWithPathView> {
    entries.map_values(|entry: RepoDirItemWithPath| entry@)
}

/// Consumes one classified entry: a mapped entry goes into `mapping` under
/// its path and is no longer expected, an entry ignored without having been
/// declared is noted, and a directory to descend into is handed back.
pub fn consume(mapping: &mut DotMaps, dir_data: &mut DirData, entry: RepoDirItemWithPath) -> (subdir:
    Option<String>)
    ensures
        dot_map_views(final(mapping)@) == mapping_with(dot_map_views(old(mapping)@), entry@),
        final(dir_data)@ == data_with(old(dir_data)@, entry@),
        match subdir {
            Some(path) => descent(entry@) == Some(path@),
            None => descent(entry@) is None,
        },
{
    let RepoDirItemWithPath { path, item } = entry;
    match item {
        RepoDirItem::SubDir => Some(path),
        RepoDirItem::Mapping(name, located_target) => {
            let dot_map = DotMap::new(path.clone(), located_target);
            mapping.insert(path, dot_map);
            dir_data.expected_targets.remove(name.as_str());
            None
        },
        RepoDirItem::Ignore(kind, name) => {
            match kind {
                IgnoreType::Implicit => {
                    dir_data.implicit_ignores.insert(name);
                },
                _ => {},
            }
            None
        },
    }
}

/// Consumes the classified entries of one directory, in order, and puts the
/// directories to descend into on the stack.
pub fn consume_all(
    mapping: &mut DotMaps,
    dir_data: &mut DirData,
    stack: &mut Vec<String>,
    entries: Vec<RepoDirItemWithPath>,
)
    ensures
        dot_map_views(final(mapping)@) == mapping_with_all(
            dot_map_views(old(mapping)@),
            entry_views(entries@),
        ),
        final(dir_data)@ == data_with_all(old(dir_data)@, entry_views(entries@)),
        texts(final(stack)@) == texts(old(stack)@) + descents(entry_views(entries@)),
{
    let ghost views = entry_views(entries@);
    let ghost mapping_before = dot_map_views(mapping@);
    let ghost data_before = dir_data@;
    let ghost stack_before = texts(stack@);
    // Entries can only be taken from the back, so they are turned round first.
    let mut entries = entries;
    let mut rest: Vec<RepoDirItemWithPath> = Vec::new();
    while entries.len() > 0
        invariant
            entries.len() + rest.len() == views.len(),
            forall|i: int| 0 <= i < entries.len() ==> (#[trigger] entries[i])@ == views[i],
            forall|i: int|
                0 <= i < rest.len() ==> (#[trigger] rest[i])@ == views[views.len() - 1 - i],
        decreases entries.len(),
    {
        let entry = entries.pop().unwrap();
        rest.push(entry);
    }
    let ghost mut done: int = 0;
    while rest.len() > 0
        invariant
            0 <= done,
            done + rest.len() == views.len(),
            forall|i: int|
                0 <= i < rest.len() ==> (#[trigger] rest[i])@ == views[views.len() - 1 - i],
            dot_map_views(mapping@) == mapping_with_all(mapping_before, views.take(done)),
            dir_data@ == data_with_all(data_before, views.take(done)),
            texts(stack@) == stack_before + descents(views.take(done)),
        decreases rest.len(),
    {
        let entry = rest.pop().unwrap();
        let ghost stack_now = texts(stack@);
        proof {
            assert(entry@ == views[done]);
            assert(views.take(done + 1).drop_last() =~= views.take(done));
            assert(views.take(done + 1).last() == views[done]);
        }
        match consume(mapping, dir_data, entry) {
            Some(path) => {
                stack.push(path);
                proof {
                    assert(texts(stack@) =~= stack_now.push(path@));
                }
            },
            None => {},
        }
        proof {
            done = done + 1;
        }
    }
    proof {
        assert(views.take(views.len() as int) =~= views);
    }
}

/// One directory as a walk saw it: its path, the context read for it, and
/// its entries as they were classified.
pub struct Visit {
    pub path: Seq<char>,
    pub context: SpecContextView,
    pub entries: Seq<RepoDirItemWithPathView>,
}

/// Whether every entry of the visit is what its context makes of it.
pub open spec fn well_classified(visit: Visit) -> bool {
    forall|j: int|
        0 <= j < visit.entries.len() ==> classified_in(#[trigger] visit.entries[j], visit.context)
}

/// The notes that a visit leaves.
pub open spec fn report_of(visit: Visit) -> DirDataView {
    data_with_all(fresh_data(visit.path, visit.context), visit.entries)
}

/// The mappings that the visits gather, in order.
pub open spec fn mapping_of(visits: Seq<Visit>) -> Map<Seq<char>, DotMapView>
    decreases visits.len(),
{
    if visits.len() == 0 {
        Map::empty()
    } else {
        mapping_with_all(mapping_of(visits.drop_last()), visits.last().entries)
    }
}

/// Whether `path` is the root or a directory that one of the visits found to
/// descend into.
pub open spec fn reached(visits: Seq<Visit>, root: Seq<char>, path: Seq<char>) -> bool {
    path == root || exists|k: int, j: int|
        0 <= k < visits.len() && 0 <= j < visits[k].entries.len() && descent(
            #[trigger] visits[k].entries[j],
        ) == Some(path)
}

/// Whether the visits are those of a walk from `root`: each directory was
/// reached by the visits before it, and its entries are classified under its
/// own context.
pub open spec fn is_walk(visits: Seq<Visit>, root: Seq<char>) -> bool {
    forall|i: int|
        0 <= i < visits.len() ==> well_classified(#[trigger] visits[i]) && reached(
            visits.take(i),
            root,
            visits[i].path,
        )
}

/// Whether a visit after the one at `k` is to `path`.
pub open spec fn visited_after(visits: Seq<Visit>, k: int, path: Seq<char>) -> bool {
    exists|i: int| k < i < visits.len() && (#[trigger] visits[i]).path == path
}

/// Whether every directory that a visit found to descend into has its own
/// visit later on.
pub open spec fn is_complete(visits: Seq<Visit>) -> bool {
    forall|k: int, j: int|
        0 <= k < visits.len() && 0 <= j < visits[k].entries.len() ==> match descent(
            #[trigger] visits[k].entries[j],
        ) {
            Some(path) => visited_after(visits, k, path),
            None => true,
        }
}

/// Whether every directory that a visit found to descend into has its own
/// visit later on or is among `waiting`.
pub open spec fn is_complete_but(visits: Seq<Visit>, waiting: Seq<Seq<char>>) -> bool {
    forall|k: int, j: int|
        0 <= k < visits.len() && 0 <= j < visits[k].entries.len() ==> match descent(
            #[trigger] visits[k].entries[j],
        ) {
            Some(path) => visited_after(visits, k, path) || waiting.contains(path),
            None => true,
        }
}

/// Whether a walk can end in this error: a specification that could not be
/// read, a directory or an entry that could not be read, or an entry whose
/// path has no file name.
pub open spec fn is_walk_failure(error: TreeTraverserError) -> bool {
    match error {
        TreeTraverserError::Io(_) => false,
        TreeTraverserError::ConfigFile(_) => true,
        TreeTraverserError::DirVisitor(RepoDirVisitorError::Io(_)) => true,
        TreeTraverserError::DirVisitor(RepoDirVisitorError::CannotGetFileName(path)) => file_name_spec(
            path@,
        ) is None,
    }
}

/// The views of a sequence of notes.
pub open spec fn report_views(reports: Seq<DirData>) -> Seq<DirDataView> {
    reports.map_values(|data: DirData| data@)
}

/// What a walk brings back: the mappings of the tree, and the notes on each
/// directory in the order of the visits.
#[derive(Debug)]
pub struct Walked {
    pub mapping: DotMaps,
    pub reports: Vec<DirData>,
}

/// Every directory to descend into comes from one of the entries.
pub proof fn lemma_descents_come_from_entries(entries: Seq<RepoDirItemWithPathView>, i: int)
    requires
        0 <= i < descents(entries).len(),
    ensures
        exists|j: int| 0 <= j < entries.len() && descent(#[trigger] entries[j]) == Some(descents(entries)[i]),
    decreases entries.len(),
{
    if entries.len() > 0 {
        let rest = entries.drop_last();
        if i < descents(rest).len() {
            lemma_descents_come_from_entries(rest, i);
        }
    }
}

/// Every entry that is a directory to descend into is among the descents.
pub proof fn lemma_entries_are_among_descents(entries: Seq<RepoDirItemWithPathView>, j: int)
    requires
        0 <= j < entries.len(),
        descent(entries[j]) is Some,
    ensures
        descents(entries).contains(descent(entries[j])->Some_0),
    decreases entries.len(),
{
    let path = descent(entries[j])->Some_0;
    let rest = entries.drop_last();
    if j < entries.len() - 1 {
        lemma_entries_are_among_descents(rest, j);
        let i = choose|i: int| 0 <= i < descents(rest).len() && descents(rest)[i] == path;
        assert(descents(entries)[i] == path);
    } else {
        assert(descents(entries)[descents(entries).len() - 1] == path);
    }
}

/// Walks a repository, directory by directory.
#[derive(Debug)]
pub struct TreeTraverser<'a, DL: DirectoryListing, MC: MetadataChecks, SS: SpecSource> {
    visitor: DirVisitation<'a, MC, DL>,
    spec_source: &'a SS,
}

impl<'a, DL: DirectoryListing, MC: MetadataChecks, SS: SpecSource> TreeTraverser<'a, DL, MC, SS> {
    /// What lists and classifies the directories.
    pub closed spec fn visitor(&self) -> DirVisitation<'a, MC, DL> {
        self.visitor
    }

    /// Where the specifications of the directories come from.
    pub closed spec fn spec_source(&self) -> &SS {
        self.spec_source
    }

    pub fn new(metadata_checks: &'a MC, directory_listing: &'a DL, spec_source: &'a SS) -> (traverser:
        Self)
        ensures
            traverser.visitor().metadata_checks() == metadata_checks,
            traverser.visitor().directory_listing() == directory_listing,
            traverser.spec_source() == spec_source,
    {
        TreeTraverser { visitor: DirVisitation::new(metadata_checks, directory_listing), spec_source }
    }

    /// Walks the tree below `root`, depth first: reads the specification of
    /// each directory, classifies its entries, gathers the mapped ones and
    /// descends into the directories among the rest. The first failure ends
    /// the walk.
    ///
    /// On success there are visits, the first of them to `root`, that make up
    /// a walk from `root`, leave no directory out that was found to descend
    /// into, and give the mappings and the notes brought back.
    pub fn walk(&self, root: &str) -> (walked: Result<Walked, TreeTraverserError>)
        ensures
            match walked {
                Ok(walked) => exists|visits: Seq<Visit>|
                    {
                        &&& #[trigger] is_walk(visits, root@)
                        &&& is_complete(visits)
                        &&& visits.len() > 0
                        &&& dot_map_views(walked.mapping@) == mapping_of(visits)
                        &&& report_views(walked.reports@) == visits.map_values(
                            |visit: Visit| report_of(visit),
                        )
                    },
                Err(error) => is_walk_failure(error),
            },
    {
        let mut mapping: DotMaps = StringMap::new();
        let mut reports: Vec<DirData> = Vec::new();
        let mut stack: Vec<String> = Vec::new();
        stack.push(root.to_owned());
        let ghost mut visits: Seq<Visit> = Seq::empty();
        while stack.len() > 0
            invariant
                is_walk(visits, root@),
                visits.len() == 0 ==> stack.len() > 0,
                visits.len() == reports.len(),
                dot_map_views(mapping@) == mapping_of(visits),
                report_views(reports@) == visits.map_values(|visit: Visit| report_of(visit)),
                forall|i: int|
                    0 <= i < stack.len() ==> reached(visits, root@, #[trigger] texts(stack@)[i]),
                is_complete_but(visits, texts(stack@)),
            decreases usize::MAX - reports.len(),
        {
            let ghost stack_before = texts(stack@);
            let current = stack.pop().unwrap();
            let ghost stack_popped = texts(stack@);
            let context = match SpecContext::from_path(self.spec_source, current.as_str()) {
                Ok(context) => context,
                Err(error) => {
                    return Err(TreeTraverserError::ConfigFile(error));
                },
            };
            let mut dir_data = DirData::new(current.clone(), &context);
            let visitor = match self.visitor.visit(current.as_str(), &context) {
                Ok(visitor) => visitor,
                Err(error) => {
                    return Err(TreeTraverserError::DirVisitor(error));
                },
            };
            let entries = match visitor.collect() {
                Ok(entries) => entries,
                Err(error) => {
                    return Err(TreeTraverserError::DirVisitor(error));
                },
            };
            let ghost visit = Visit {
                path: current@,
                context: context@,
                entries: entry_views(entries@),
            };
            let ghost visits_before = visits;
            let ghost reports_before = report_views(reports@);
            consume_all(&mut mapping, &mut dir_data, &mut stack, entries);
            reports.push(dir_data);
            proof {
                visits = visits.push(visit);
                let now = texts(stack@);
                assert(visits.drop_last() =~= visits_before);
                assert(stack_before[stack_before.len() - 1] == current@);
                assert(stack_popped =~= stack_before.drop_last());
                assert(now == stack_popped + descents(visit.entries));
                assert(report_views(reports@) =~= reports_before.push(dir_data@));
                // What waits on the stack was reached by the visits so far.
                assert forall|i: int| 0 <= i < now.len() implies reached(
                    visits,
                    root@,
                    #[trigger] now[i],
                ) by {
                    let path = now[i];
                    if i < stack_popped.len() {
                        assert(path == stack_before[i]);
                        assert(reached(visits_before, root@, path));
                        if path != root@ {
                            let (k, j) = choose|k: int, j: int|
                                0 <= k < visits_before.len() && 0 <= j
                                    < visits_before[k].entries.len() && descent(
                                    #[trigger] visits_before[k].entries[j],
                                ) == Some(path);
                            assert(visits[k] == visits_before[k]);
                        }
                    } else {
                        let d = i - stack_popped.len();
                        assert(path == descents(visit.entries)[d]);
                        lemma_descents_come_from_entries(visit.entries, d);
                        assert(visits[visits.len() - 1] == visit);
                    }
                }
                // What was found to descend into is visited or waits on the stack.
                assert forall|k: int, j: int|
                    0 <= k < visits.len() && 0 <= j < visits[k].entries.len() implies match descent(
                    #[trigger] visits[k].entries[j],
                ) {
                    Some(path) => visited_after(visits, k, path) || now.contains(path),
                    None => true,
                } by {
                    match descent(visits[k].entries[j]) {
                        Some(path) => {
                            if k == visits_before.len() {
                                lemma_entries_are_among_descents(visit.entries, j);
                                let at = choose|at: int|
                                    0 <= at < descents(visit.entries).len() && descents(
                                        visit.entries,
                                    )[at] == path;
                                assert(now[stack_popped.len() + at] == path);
                            } else {
                                assert(visits[k] == visits_before[k]);
                                assert(descent(visits_before[k].entries[j]) == Some(path));
                                if visited_after(visits_before, k, path) {
                                    let i = choose|i: int|
                                        k < i < visits_before.len() && (
                                        #[trigger] visits_before[i]).path == path;
                                    assert(visits[i] == visits_before[i]);
                                } else {
                                    assert(stack_before.contains(path));
                                    let at = choose|at: int|
                                        0 <= at < stack_before.len() && stack_before[at] == path;
                                    if at < stack_before.len() - 1 {
                                        assert(stack_popped[at] == path);
                                        assert(now[at] == path);
                                    } else {
                                        assert(visits[visits_before.len() as int].path == path);
                                    }
                                }
                            }
                        },
                        None => {},
                    }
                }
                // The visits so far still make up a walk.
                assert forall|i: int| 0 <= i < visits.len() implies well_classified(
                    #[trigger] visits[i],
                ) && reached(visits.take(i), root@, visits[i].path) by {
                    if i < visits_before.len() {
                        assert(visits[i] == visits_before[i]);
                        assert(visits.take(i) =~= visits_before.take(i));
                    } else {
                        assert(visits.take(i) =~= visits_before);
                        assert forall|j: int| 0 <= j < visit.entries.len() implies classified_in(
                            #[trigger] visit.entries[j],
                            visit.context,
                        ) by {
                            assert(visit.entries[j] == entries[j]@);
                        }
                    }
                }
            }
        }
        Ok(Walked { mapping, reports })
    }

    /// The mappings of the tree below `root`: those that [`Self::walk`]
    /// brings back. Where no visited directory declares a target, there are
    /// none.
    pub fn traverse(&self, root: &str) -> (mapping: Result<DotMaps, TreeTraverserError>)
        ensures
            match mapping {
                Ok(mapping) => exists|visits: Seq<Visit>|
                    {
                        &&& #[trigger] is_walk(visits, root@)
                        &&& is_complete(visits)
                        &&& visits.len() > 0
                        &&& dot_map_views(mapping@) == mapping_of(visits)
                        &&& without_targets(visits) ==> dot_map_views(mapping@) == Map::<
                            Seq<char>,
                            DotMapView,
                        >::empty()
                    },
                Err(error) => is_walk_failure(error),
            },
    {
        match self.walk(root) {
            Ok(walked) => {
                proof {
                    let visits = choose|visits: Seq<Visit>|
                        {
                            &&& #[trigger] is_walk(visits, root@)
                            &&& is_complete(visits)
                            &&& visits.len() > 0
                            &&& dot_map_views(walked.mapping@) == mapping_of(visits)
                        };
                    if without_targets(visits) {
                        lemma_walk_without_targets(visits, root@);
                    }
                }
                Ok(walked.mapping)
            },
            Err(error) => Err(error),
        }
    }
}

/// Consuming entries among which none is mapped leaves the mappings as they were.
pub proof fn lemma_unmapped_entries_add_nothing(
    mapping: Map<Seq<char>, DotMapView>,
    entries: Seq<RepoDirItemWithPathView>,
)
    requires
        forall|j: int| 0 <= j < entries.len() ==> !((#[trigger] entries[j]).item is Mapping),
    ensures
        mapping_with_all(mapping, entries) == mapping,
    decreases entries.len(),
{
    if entries.len() > 0 {
        let rest = entries.drop_last();
        lemma_unmapped_entries_add_nothing(mapping, rest);
    }
}

/// Whether the context of no visit declares a target.
pub open spec fn without_targets(visits: Seq<Visit>) -> bool {
    forall|i: int|
        0 <= i < visits.len() ==> (#[trigger] visits[i]).context.targets == Map::<
            Seq<char>,
            LocatedTargetView,
        >::empty()
}

/// A walk through directories of which none declares a target gathers no mapping.
pub proof fn lemma_walk_without_targets(visits: Seq<Visit>, root: Seq<char>)
    requires
        is_walk(visits, root),
        without_targets(visits),
    ensures
        mapping_of(visits) == Map::<Seq<char>, DotMapView>::empty(),
    decreases visits.len(),
{
    if visits.len() > 0 {
        let rest = visits.drop_last();
        let last = visits.last();
        assert forall|i: int| 0 <= i < rest.len() implies well_classified(#[trigger] rest[i])
            && reached(rest.take(i), root, rest[i].path) by {
            assert(rest.take(i) =~= visits.take(i));
        }
        lemma_walk_without_targets(rest, root);
        lemma_unmapped_entries_add_nothing(mapping_of(rest), last.entries);
    }
}

/// Every mapping that a walk gathers stands under the path of its own source.
pub proof fn lemma_mappings_keyed_by_source(visits: Seq<Visit>, path: Seq<char>)
    requires
        mapping_of(visits).contains_key(path),
    ensures
        mapping_of(visits)[path].source == path,
    decreases visits.len(),
{
    if visits.len() > 0 {
        if mapping_of(visits.drop_last()).contains_key(path) {
            lemma_mappings_keyed_by_source(visits.drop_last(), path);
        }
        lemma_entries_keyed_by_source(mapping_of(visits.drop_last()), visits.last().entries, path);
    }
}

/// Consuming entries keeps every mapping under the path of its own source.
pub proof fn lemma_entries_keyed_by_source(
    mapping: Map<Seq<char>, DotMapView>,
    entries: Seq<RepoDirItemWithPathView>,
    path: Seq<char>,
)
    requires
        mapping_with_all(mapping, entries).contains_key(path),
        mapping.contains_key(path) ==> mapping[path].source == path,
    ensures
        mapping_with_all(mapping, entries)[path].source == path,
    decreases entries.len(),
{
    if entries.len() > 0 {
        let rest = entries.drop_last();
        if mapping_with_all(mapping, rest).contains_key(path) {
            lemma_entries_keyed_by_source(mapping, rest, path);
        }
    }
}

/// Whether what was read in a directory declares no target: there is no
/// specification, or its two sections hold no entry.
pub open spec fn declares_nothing(read: Option<SpecView>) -> bool {
    match read {
        Some(spec) => spec.home.len() == 0 && spec.config.len() == 0,
        None => true,
    }
}

/// Whether the context of every visit is what a spec source that does not
/// change reads in the directory of the visit: `read` is what it reads where.
pub open spec fn contexts_read_by(visits: Seq<Visit>, read: spec_fn(Seq<char>) -> Option<SpecView>) -> bool {
    forall|i: int|
        0 <= i < visits.len() ==> (#[trigger] visits[i]).context == context_of_read(
            read(visits[i].path),
        )
}

/// A walk through a repository of which no visited directory declares a
/// target gathers no mapping, whatever files, ignored names and directories
/// the repository holds.
pub proof fn lemma_walk_without_declarations(
    visits: Seq<Visit>,
    root: Seq<char>,
    read: spec_fn(Seq<char>) -> Option<SpecView>,
)
    requires
        is_walk(visits, root),
        contexts_read_by(visits, read),
        forall|i: int| 0 <= i < visits.len() ==> declares_nothing(read((#[trigger] visits[i]).path)),
    ensures
        mapping_of(visits) == Map::<Seq<char>, DotMapView>::empty(),
{
    assert forall|i: int| 0 <= i < visits.len() implies (#[trigger] visits[i]).context.targets
        == Map::<Seq<char>, LocatedTargetView>::empty() by {
        let read_there = read(visits[i].path);
        assert(declares_nothing(read_there));
        match read_there {
            Some(spec) => {
                lemma_no_entries_no_targets(spec);
            },
            None => {},
        }
    }
    lemma_walk_without_targets(visits, root);
}

/// A path has a mapping after entries were consumed exactly if it had one
/// before or one of the entries at that path is mapped.
pub proof fn lemma_entries_mapped(
    mapping: Map<Seq<char>, DotMapView>,
    entries: Seq<RepoDirItemWithPathView>,
    path: Seq<char>,
)
    ensures
        mapping_with_all(mapping, entries).contains_key(path) <==> mapping.contains_key(path)
            || exists|j: int|
            0 <= j < entries.len() && (#[trigger] entries[j]).path == path && entries[j].item is Mapping,
    decreases entries.len(),
{
    if entries.len() > 0 {
        let rest = entries.drop_last();
        lemma_entries_mapped(mapping, rest, path);
        if exists|j: int|
            0 <= j < rest.len() && (#[trigger] rest[j]).path == path && rest[j].item is Mapping {
            let j = choose|j: int|
                0 <= j < rest.len() && (#[trigger] rest[j]).path == path && rest[j].item is Mapping;
            assert(entries[j] == rest[j]);
        }
        if exists|j: int|
            0 <= j < entries.len() && (#[trigger] entries[j]).path == path
                && entries[j].item is Mapping {
            let j = choose|j: int|
                0 <= j < entries.len() && (#[trigger] entries[j]).path == path
                    && entries[j].item is Mapping;
            if j < rest.len() {
                assert(rest[j] == entries[j]);
            }
        }
        if entries.last().path == path && entries.last().item is Mapping {
            assert(entries[entries.len() - 1].path == path);
        }
    }
}

/// A path has a mapping after a walk exactly if one of the visits found a
/// mapped entry at that path: nothing else is mapped, and nothing that was
/// found mapped is left out.
pub proof fn lemma_walk_mapped(visits: Seq<Visit>, path: Seq<char>)
    ensures
        mapping_of(visits).contains_key(path) <==> exists|i: int, j: int|
            0 <= i < visits.len() && 0 <= j < visits[i].entries.len() && (
            #[trigger] visits[i].entries[j]).path == path && visits[i].entries[j].item is Mapping,
    decreases visits.len(),
{
    if visits.len() > 0 {
        let rest = visits.drop_last();
        let last = visits.last();
        lemma_walk_mapped(rest, path);
        lemma_entries_mapped(mapping_of(rest), last.entries, path);
        if exists|i: int, j: int|
            0 <= i < rest.len() && 0 <= j < rest[i].entries.len() && (
            #[trigger] rest[i].entries[j]).path == path && rest[i].entries[j].item is Mapping {
            let (i, j) = choose|i: int, j: int|
                0 <= i < rest.len() && 0 <= j < rest[i].entries.len() && (
                #[trigger] rest[i].entries[j]).path == path && rest[i].entries[j].item is Mapping;
            assert(visits[i] == rest[i]);
            assert(visits[i].entries[j].path == path);
        }
        if exists|j: int|
            0 <= j < last.entries.len() && (#[trigger] last.entries[j]).path == path
                && last.entries[j].item is Mapping {
            let j = choose|j: int|
                0 <= j < last.entries.len() && (#[trigger] last.entries[j]).path == path
                    && last.entries[j].item is Mapping;
            assert(visits[visits.len() - 1].entries[j].path == path);
        }
        if exists|i: int, j: int|
            0 <= i < visits.len() && 0 <= j < visits[i].entries.len() && (
            #[trigger] visits[i].entries[j]).path == path && visits[i].entries[j].item is Mapping {
            let (i, j) = choose|i: int, j: int|
                0 <= i < visits.len() && 0 <= j < visits[i].entries.len() && (
                #[trigger] visits[i].entries[j]).path == path && visits[i].entries[j].item is Mapping;
            if i < rest.len() {
                assert(rest[i] == visits[i]);
                assert(rest[i].entries[j].path == path);
            } else {
                assert(last.entries[j].path == path);
            }
        }
    }
}

/// Whether `entry` is a mapped entry at `path` that gives the mapping `value`.
pub open spec fn maps_to(entry: RepoDirItemWithPathView, path: Seq<char>, value: DotMapView) -> bool {
    entry.path == path && match entry.item {
        RepoDirItemView::Mapping(_, target) => value == (DotMapView { source: path, target }),
        _ => false,
    }
}

/// The mapping of a path after entries were consumed is the one it had
/// before, or the one that a mapped entry at that path gives.
pub proof fn lemma_entries_give_mapping(
    mapping: Map<Seq<char>, DotMapView>,
    entries: Seq<RepoDirItemWithPathView>,
    path: Seq<char>,
)
    requires
        mapping_with_all(mapping, entries).contains_key(path),
    ensures
        (mapping.contains_key(path) && mapping_with_all(mapping, entries)[path] == mapping[path])
            || exists|j: int|
            0 <= j < entries.len() && maps_to(
                #[trigger] entries[j],
                path,
                mapping_with_all(mapping, entries)[path],
            ),
    decreases entries.len(),
{
    if entries.len() > 0 {
        let rest = entries.drop_last();
        let last = entries.last();
        let value = mapping_with_all(mapping, entries)[path];
        if maps_to(last, path, value) {
            assert(maps_to(entries[entries.len() - 1], path, value));
        } else {
            assert(mapping_with_all(mapping, rest).contains_key(path));
            assert(mapping_with_all(mapping, rest)[path] == value);
            lemma_entries_give_mapping(mapping, rest, path);
            if exists|j: int| 0 <= j < rest.len() && maps_to(#[trigger] rest[j], path, value) {
                let j = choose|j: int| 0 <= j < rest.len() && maps_to(#[trigger] rest[j], path, value);
                assert(entries[j] == rest[j]);
            }
        }
    }
}

/// Every mapping that a walk gathers is the one that a mapped entry, found
/// by one of the visits at the path of the mapping, gives.
pub proof fn lemma_walk_gives_mapping(visits: Seq<Visit>, path: Seq<char>)
    requires
        mapping_of(visits).contains_key(path),
    ensures
        exists|i: int, j: int|
            0 <= i < visits.len() && 0 <= j < visits[i].entries.len() && maps_to(
                #[trigger] visits[i].entries[j],
                path,
                mapping_of(visits)[path],
            ),
    decreases visits.len(),
{
    if visits.len() > 0 {
        let rest = visits.drop_last();
        let last = visits.last();
        let value = mapping_of(visits)[path];
        lemma_entries_give_mapping(mapping_of(rest), last.entries, path);
        if exists|j: int| 0 <= j < last.entries.len() && maps_to(#[trigger] last.entries[j], path, value) {
            let j = choose|j: int|
                0 <= j < last.entries.len() && maps_to(#[trigger] last.entries[j], path, value);
            assert(maps_to(visits[visits.len() - 1].entries[j], path, value));
        } else {
            lemma_walk_gives_mapping(rest, path);
            let (i, j) = choose|i: int, j: int|
                0 <= i < rest.len() && 0 <= j < rest[i].entries.len() && maps_to(
                    #[trigger] rest[i].entries[j],
                    path,
                    mapping_of(rest)[path],
                );
            assert(visits[i] == rest[i]);
            assert(maps_to(visits[i].entries[j], path, value));
        }
    }
}

/// The specification that maps the one name `bashrc` under the home root.
pub open spec fn bashrc_spec() -> SpecView {
    SpecView {
        home: seq![MappingView { source: "bashrc"@, target: None, dot: None }],
        config: Seq::empty(),
        ignore: Set::empty(),
    }
}

/// The mapping of a file `bashrc` at `path`: linked under the home root by
/// its own name, with the dot that the root calls for.
pub open spec fn bashrc_map(path: Seq<char>) -> DotMapView {
    DotMapView {
        source: path,
        target: LocatedTargetView {
            target: TargetView { name: "bashrc"@, dot: None },
            destination: Destination::Home,
        },
    }
}

/// Whether the visits saw a repository that holds, below `root`, the file
/// `bashrc` and the directory `nvim` and nothing else, with `bashrc` mapped
/// by the specification of `root` and nothing in `nvim`.
pub open spec fn saw_one_mapped_file(visits: Seq<Visit>, root: Seq<char>) -> bool {
    forall|i: int|
        0 <= i < visits.len() ==> {
            &&& (#[trigger] visits[i]).path == root ==> {
                &&& visits[i].context == context_of(bashrc_spec())
                &&& visits[i].entries.len() == 2
                &&& visits[i].entries[0].path == spec_join(root, "bashrc"@)
                &&& visits[i].entries[1].path == spec_join(root, "nvim"@)
            }
            &&& visits[i].path == spec_join(root, "nvim"@) ==> visits[i].entries.len() == 0
        }
}

/// In a directory with the specification [`bashrc_spec`], the entry `bashrc`
/// is mapped, whatever the file system says of it.
proof fn lemma_bashrc_is_mapped(entry: RepoDirItemWithPathView, root: Seq<char>)
    requires
        entry.path == spec_join(root, "bashrc"@),
        classified_in(entry, context_of(bashrc_spec())),
    ensures
        maps_to(entry, entry.path, bashrc_map(entry.path)),
        descent(entry) is None,
{
    reveal_strlit("bashrc");
    let name = "bashrc"@;
    assert(is_plain_name(name)) by {
        assert(name.len() == 6);
        assert(name[0] == 'b');
    }
    lemma_file_name_of_join(root, name);
    let spec = bashrc_spec();
    let context = context_of(spec);
    let entry_of_spec = MappingView { source: name, target: None, dot: None };
    assert(spec.home.drop_last() =~= Seq::<MappingView>::empty());
    assert(spec.home.last() == entry_of_spec);
    let first = with_section(Map::empty(), spec.home, Destination::Home);
    assert(with_section(Map::empty(), spec.home.drop_last(), Destination::Home) == Map::<
        Seq<char>,
        LocatedTargetView,
    >::empty());
    assert(first == Map::<Seq<char>, LocatedTargetView>::empty().insert(
        name,
        declared_target(entry_of_spec, Destination::Home),
    ));
    assert(context.targets == first);
    assert(context.targets.contains_key(name));
    assert(!is_dot_name(name));
    assert(!context.ignores.contains(name));
}

/// A walk through such a repository visits the root and `nvim` only.
proof fn lemma_only_root_and_nvim(visits: Seq<Visit>, root: Seq<char>, i: int)
    requires
        is_walk(visits, root),
        saw_one_mapped_file(visits, root),
        0 <= i < visits.len(),
    ensures
        visits[i].path == root || visits[i].path == spec_join(root, "nvim"@),
    decreases i,
{
    let path = visits[i].path;
    assert(reached(visits.take(i), root, path));
    if path != root {
        let before = visits.take(i);
        let (k, j) = choose|k: int, j: int|
            0 <= k < before.len() && 0 <= j < before[k].entries.len() && descent(
                #[trigger] before[k].entries[j],
            ) == Some(path);
        assert(before[k] == visits[k]);
        lemma_only_root_and_nvim(visits, root, k);
        assert(well_classified(visits[k]));
        if visits[k].path == root {
            if j == 0 {
                assert(classified_in(visits[k].entries[0], visits[k].context));
                lemma_bashrc_is_mapped(visits[k].entries[0], root);
            }
        }
    }
}

/// Of a repository that holds the mapped file `bashrc` and the unmapped
/// directory `nvim`, a walk gathers exactly one mapping: that of `bashrc`.
pub proof fn lemma_one_mapped_file(visits: Seq<Visit>, root: Seq<char>)
    requires
        is_walk(visits, root),
        visits.len() > 0,
        saw_one_mapped_file(visits, root),
    ensures
        mapping_of(visits) == Map::<Seq<char>, DotMapView>::empty().insert(
            spec_join(root, "bashrc"@),
            bashrc_map(spec_join(root, "bashrc"@)),
        ),
{
    let bashrc = spec_join(root, "bashrc"@);
    let nvim = spec_join(root, "nvim"@);
    let mapping = mapping_of(visits);
    assert(bashrc != nvim) by {
        reveal_strlit("bashrc");
        reveal_strlit("nvim");
        assert("bashrc"@[0] == 'b');
        assert("nvim"@[0] == 'n');
        assert(bashrc.len() == nvim.len() + 2);
    }
    // The first visit is to the root, and finds `bashrc` mapped.
    assert(reached(visits.take(0), root, visits[0].path));
    assert(visits[0].path == root);
    assert(well_classified(visits[0]));
    assert(classified_in(visits[0].entries[0], visits[0].context));
    lemma_bashrc_is_mapped(visits[0].entries[0], root);
    lemma_walk_mapped(visits, bashrc);
    assert(mapping.contains_key(bashrc));
    // Whatever is mapped was found mapped at the root, as `bashrc`.
    assert forall|path: Seq<char>| #[trigger] mapping.contains_key(path) implies path == bashrc
        && mapping[path] == bashrc_map(bashrc) by {
        lemma_walk_gives_mapping(visits, path);
        let (i, j) = choose|i: int, j: int|
            0 <= i < visits.len() && 0 <= j < visits[i].entries.len() && maps_to(
                #[trigger] visits[i].entries[j],
                path,
                mapping[path],
            );
        lemma_only_root_and_nvim(visits, root, i);
        assert(well_classified(visits[i]));
        assert(classified_in(visits[i].entries[j], visits[i].context));
        if j == 0 {
            lemma_bashrc_is_mapped(visits[i].entries[0], root);
        } else {
            lemma_nvim_is_not_mapped(visits[i].entries[1], root);
        }
    }
    assert(mapping =~= Map::<Seq<char>, DotMapView>::empty().insert(bashrc, bashrc_map(bashrc)));
}

/// In a directory with the specification [`bashrc_spec`], the entry `nvim`
/// is not mapped.
proof fn lemma_nvim_is_not_mapped(entry: RepoDirItemWithPathView, root: Seq<char>)
    requires
        entry.path == spec_join(root, "nvim"@),
        classified_in(entry, context_of(bashrc_spec())),
    ensures
        !(entry.item is Mapping),
{
    reveal_strlit("nvim");
    reveal_strlit("bashrc");
    let name = "nvim"@;
    assert(is_plain_name(name)) by {
        assert(name.len() == 4);
        assert(name[0] == 'n');
    }
    lemma_file_name_of_join(root, name);
    let spec = bashrc_spec();
    let context = context_of(spec);
    assert(spec.home.drop_last() =~= Seq::<MappingView>::empty());
    assert(with_section(Map::empty(), spec.home.drop_last(), Destination::Home) == Map::<
        Seq<char>,
        LocatedTargetView,
    >::empty());
    assert("bashrc"@.len() == 6);
    assert(!context.targets.contains_key(name));
}

} // verus!
