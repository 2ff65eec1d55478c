//! The specification of one directory, as written and as resolved.
use crate::collections::{option_text, StringMap, StringSet};
use crate::config::file::{ConfigFileReadError, ConfigFormat, ConfigType, ReadFromConfig};
use crate::mapping::{Destination, LocatedTarget, LocatedTargetView, Target, TargetMap, TargetView};
use vstd::prelude::*;
use vstd::std_specs::convert::FromSpecImpl;
use vstd::string::StringExecFns;

verus! {

/// One entry of a section: a bare name, or a record.
#[derive(Debug, PartialEq, Eq)]
pub enum Shorthand {
    /// Link the entry of this name under the same name.
    Name(String),
    Mapped(Mapping),
}

/// Link the entry `source` as `target`, or under its own name where none is
/// given, with the leading dot forced or forbidden where `dot` says so.
#[derive(Debug, PartialEq, Eq)]
pub struct Mapping {
    pub source: String,
    pub target: Option<String>,
    pub dot: Option<bool>,
}

/// A section of a specification: absent, or a list of entries.
pub type Section<T> = Option<Vec<T>>;

/// What the file in a directory declares: the entries linked under the home
/// root, those linked under the configuration root, and the names to ignore.
#[derive(Debug, PartialEq, Eq)]
pub struct Spec {
    pub home: Section<Shorthand>,
    pub config: Section<Shorthand>,
    pub ignore: Option<StringSet>,
}

pub struct MappingView {
    pub source: Seq<char>,
    pub target: Option<Seq<char>>,
    pub dot: Option<bool>,
}

impl View for Mapping {
    type V = MappingView;

    open spec fn view(&self) -> MappingView {
        MappingView {
            source: self.source@,
            target: option_text(self.target),
            dot: self.dot,
        }
    }
}

impl View for Shorthand {
    type V = MappingView;

    /// A shorthand is seen as the record it stands for.
    open spec fn view(&self) -> MappingView {
        match self {
            Shorthand::Name(name) => MappingView { source: name@, target: None, dot: None },
            Shorthand::Mapped(mapping) => mapping@,
        }
    }
}

/// The entries of a section, an absent section having none.
pub open spec fn section_view(section: Section<Shorthand>) -> Seq<MappingView> {
    match section {
        Some(entries) => entries@.map_values(|entry: Shorthand| entry@),
        None => Seq::empty(),
    }
}

pub struct SpecView {
    pub home: Seq<MappingView>,
    pub config: Seq<MappingView>,
    pub ignore: Set<Seq<char>>,
}

impl View for Spec {
    type V = SpecView;

    open spec fn view(&self) -> SpecView {
        SpecView {
            home: section_view(self.home),
            config: section_view(self.config),
            ignore: match self.ignore {
                Some(names) => names@,
                None => Set::empty(),
            },
        }
    }
}

impl Clone for Mapping {
    fn clone(&self) -> (copy: Self)
        ensures
            copy == *self,
    {
        Mapping { source: self.source.clone(), target: self.target.clone(), dot: self.dot }
    }
}

impl Clone for Shorthand {
    fn clone(&self) -> (copy: Self)
        ensures
            copy == *self,
    {
        match self {
            Shorthand::Name(name) => Shorthand::Name(name.clone()),
            Shorthand::Mapped(mapping) => Shorthand::Mapped(mapping.clone()),
        }
    }
}

impl From<String> for Mapping {
    fn from(source: String) -> (mapping: Mapping) {
        Mapping { source, target: None, dot: None }
    }
}

impl FromSpecImpl<String> for Mapping {
    open spec fn obeys_from_spec() -> bool {
        true
    }

    open spec fn from_spec(source: String) -> Mapping {
        Mapping { source, target: None, dot: None }
    }
}

impl From<Shorthand> for Mapping {
    fn from(shorthand: Shorthand) -> (mapping: Mapping) {
        match shorthand {
            Shorthand::Name(name) => Mapping { source: name, target: None, dot: None },
            Shorthand::Mapped(mapping) => mapping,
        }
    }
}

impl FromSpecImpl<Shorthand> for Mapping {
    open spec fn obeys_from_spec() -> bool {
        true
    }

    open spec fn from_spec(shorthand: Shorthand) -> Mapping {
        match shorthand {
            Shorthand::Name(name) => Mapping { source: name, target: None, dot: None },
            Shorthand::Mapped(mapping) => mapping,
        }
    }
}

impl Spec {
    pub fn new(home: Section<Shorthand>, config: Section<Shorthand>, ignore: Option<StringSet>) -> (spec:
        Self)
        ensures
            spec.home == home,
            spec.config == config,
            spec.ignore == ignore,
    {
        Spec { home, config, ignore }
    }
}

impl Default for Spec {
    /// The specification that declares nothing.
    fn default() -> (spec: Self)
        ensures
            spec.home is None,
            spec.config is None,
            spec.ignore is None,
    {
        Spec { home: None, config: None, ignore: None }
    }
}

impl ReadFromConfig for Spec {
    /// The file `.dot`, which is YAML where its name has no extension.
    fn config_type() -> (kind: ConfigType)
        ensures
            kind.path@ == ".dot"@,
            kind.default_format == Some(ConfigFormat::Yaml),
    {
        ConfigType::default_yaml(String::from_str(".dot"))
    }
}

/// The target that an entry declares for its source under `destination`.
pub open spec fn declared_target(mapping: MappingView, destination: Destination) -> LocatedTargetView {
    LocatedTargetView {
        target: TargetView {
            name: match mapping.target {
                Some(target) => target,
                None => mapping.source,
            },
            dot: mapping.dot,
        },
        destination,
    }
}

/// `targets` with the entries of one section declared on top, in order: a
/// later entry for a source takes the place of an earlier one.
pub open spec fn with_section(
    targets: Map<Seq<char>, LocatedTargetView>,
    section: Seq<MappingView>,
    destination: Destination,
) -> Map<Seq<char>, LocatedTargetView>
    decreases section.len(),
{
    if section.len() == 0 {
        targets
    } else {
        with_section(targets, section.drop_last(), destination).insert(
            section.last().source,
            declared_target(section.last(), destination),
        )
    }
}

/// The targets that a list of sections declares, each section on top of
/// those before it.
pub open spec fn section_targets(sections: Seq<(Seq<MappingView>, Destination)>) -> Map<
    Seq<char>,
    LocatedTargetView,
>
    decreases sections.len(),
{
    if sections.len() == 0 {
        Map::empty()
    } else {
        with_section(section_targets(sections.drop_last()), sections.last().0, sections.last().1)
    }
}

/// The views of the targets in a map.
pub open spec fn target_views(targets: Map<Seq<char>, LocatedTarget>) -> Map<
    Seq<char>,
    LocatedTargetView,
> {
    targets.map_values(|target: LocatedTarget| target@)
}

/// The views of a list of sections.
pub open spec fn section_views(sections: Seq<(Section<Shorthand>, Destination)>) -> Seq<
    (Seq<MappingView>, Destination),
> {
    sections.map_values(|section: (Section<Shorthand>, Destination)| (section_view(section.0), section.1))
}

/// The target that one entry declares under `destination`.
fn locate_entry(entry: &Shorthand, destination: Destination) -> (declared: (String, LocatedTarget))
    ensures
        declared.0@ == entry@.source,
        declared.1@ == declared_target(entry@, destination),
{
    let mapping = Mapping::from(entry.clone());
    let name = match &mapping.target {
        Some(target) => target.clone(),
        None => mapping.source.clone(),
    };
    let target = Target::new(name, mapping.dot);
    (mapping.source, destination.locate(target))
}

/// Declares the entries of one section on top of `targets`.
fn add_section(targets: &mut TargetMap, section: &Section<Shorthand>, destination: Destination)
    ensures
        target_views(final(targets)@) == with_section(
            target_views(old(targets)@),
            section_view(*section),
            destination,
        ),
{
    match section {
        None => {},
        Some(entries) => {
            let ghost views = section_view(*section);
            let ghost start = target_views(targets@);
            let mut i: usize = 0;
            while i < entries.len()
                invariant
                    i <= entries.len(),
                    views == entries@.map_values(|entry: Shorthand| entry@),
                    target_views(targets@) == with_section(start, views.take(i as int), destination),
                decreases entries.len() - i,
            {
                let (source, target) = locate_entry(&entries[i], destination);
                targets.insert(source, target);
                proof {
                    assert(views.take(i + 1).drop_last() =~= views.take(i as int));
                }
                i += 1;
            }
            proof {
                assert(views.take(entries.len() as int) =~= views);
            }
        },
    }
}

/// The targets that the sections declare: see [`section_targets`].
pub fn map_targets(sections: Vec<(Section<Shorthand>, Destination)>) -> (targets: TargetMap)
    ensures
        target_views(targets@) == section_targets(section_views(sections@)),
{
    let mut targets: TargetMap = StringMap::new();
    let ghost views = section_views(sections@);
    let mut i: usize = 0;
    while i < sections.len()
        invariant
            i <= sections.len(),
            views == section_views(sections@),
            target_views(targets@) == section_targets(views.take(i as int)),
        decreases sections.len() - i,
    {
        add_section(&mut targets, &sections[i].0, sections[i].1);
        proof {
            assert(views.take(i + 1).drop_last() =~= views.take(i as int));
        }
        i += 1;
    }
    proof {
        assert(views.take(sections.len() as int) =~= views);
    }
    targets
}

/// What one directory declares, resolved: the target of every mapped name,
/// and the names to ignore.
#[derive(Debug)]
pub struct SpecContext {
    pub targets: TargetMap,
    pub ignores: StringSet,
}

pub struct SpecContextView {
    pub targets: Map<Seq<char>, LocatedTargetView>,
    pub ignores: Set<Seq<char>>,
}

impl View for SpecContext {
    type V = SpecContextView;

    open spec fn view(&self) -> SpecContextView {
        SpecContextView { targets: target_views(self.targets@), ignores: self.ignores@ }
    }
}

/// The context that a specification resolves to: the home section declared
/// first, the configuration section on top of it.
pub open spec fn context_of(spec: SpecView) -> SpecContextView {
    SpecContextView {
        targets: with_section(
            with_section(Map::empty(), spec.home, Destination::Home),
            spec.config,
            Destination::Config,
        ),
        ignores: spec.ignore,
    }
}

/// The context of a directory by what was read there: a directory without a
/// specification declares nothing.
pub open spec fn context_of_read(read: Option<SpecView>) -> SpecContextView {
    match read {
        Some(spec) => context_of(spec),
        None => SpecContextView { targets: Map::empty(), ignores: Set::empty() },
    }
}

/// Where the specification of a directory comes from.
pub trait SpecSource {
    /// The specification found in `directory`, if there is one.
    fn read_spec(&self, directory: &str) -> Result<Option<Spec>, ConfigFileReadError>;
}

/// The view of what was read in a directory.
pub open spec fn read_view(read: Option<Spec>) -> Option<SpecView> {
    match read {
        Some(spec) => Some(spec@),
        None => None,
    }
}

impl SpecContext {
    /// Resolves a specification: see [`context_of`].
    pub fn new(spec: Spec) -> (context: Self)
        ensures
            context@ == context_of(spec@),
    {
        let Spec { home, config, ignore } = spec;
        let mut sections: Vec<(Section<Shorthand>, Destination)> = Vec::new();
        sections.push((home, Destination::Home));
        sections.push((config, Destination::Config));
        let targets = map_targets(sections);
        let ignores = match ignore {
            Some(names) => names,
            None => StringSet::new(),
        };
        proof {
            let both = section_views(sections@);
            let first = both.drop_last();
            let none = first.drop_last();
            assert(section_targets(first) == with_section(
                section_targets(none),
                section_view(home),
                Destination::Home,
            ));
        }
        SpecContext { targets, ignores }
    }

    /// The context for what was read in a directory: see [`context_of_read`].
    pub fn from_read(read: Option<Spec>) -> (context: Self)
        ensures
            context@ == context_of_read(read_view(read)),
    {
        match read {
            Some(spec) => SpecContext::new(spec),
            None => {
                let context = SpecContext { targets: StringMap::new(), ignores: StringSet::new() };
                assert(context@.targets =~= Map::empty());
                context
            },
        }
    }

    /// Reads the specification of the directory `path` and resolves it. A
    /// directory without one gets the empty context; a failure to read is
    /// handed on.
    pub fn from_path<S: SpecSource>(source: &S, path: &str) -> (resolved: Result<
        Self,
        ConfigFileReadError,
    >)
        ensures
            match resolved {
                Ok(context) => exists|read: Option<SpecView>|
                    context@ == #[trigger] context_of_read(read),
                Err(_) => true,
            },
    {
        match source.read_spec(path) {
            Ok(read) => Ok(SpecContext::from_read(read)),
            Err(error) => Err(error),
        }
    }
}

/// A name has a target after a section was declared exactly if it had one
/// before or the section holds an entry for it.
pub proof fn lemma_with_section_names(
    targets: Map<Seq<char>, LocatedTargetView>,
    section: Seq<MappingView>,
    destination: Destination,
    name: Seq<char>,
)
    ensures
        with_section(targets, section, destination).contains_key(name) <==> targets.contains_key(
            name,
        ) || exists|i: int| 0 <= i < section.len() && (#[trigger] section[i]).source == name,
    decreases section.len(),
{
    if section.len() > 0 {
        let rest = section.drop_last();
        lemma_with_section_names(targets, rest, destination, name);
        if section.last().source != name && exists|i: int|
            0 <= i < section.len() && (#[trigger] section[i]).source == name {
            let i = choose|i: int| 0 <= i < section.len() && (#[trigger] section[i]).source == name;
            assert(rest[i] == section[i]);
        }
    }
}

/// The target of a name is the one that the last entry for it declares.
pub proof fn lemma_with_section_last_wins(
    targets: Map<Seq<char>, LocatedTargetView>,
    section: Seq<MappingView>,
    destination: Destination,
    i: int,
)
    requires
        0 <= i < section.len(),
        forall|j: int| i < j < section.len() ==> (#[trigger] section[j]).source != section[i].source,
    ensures
        with_section(targets, section, destination).contains_key(section[i].source),
        with_section(targets, section, destination)[section[i].source] == declared_target(
            section[i],
            destination,
        ),
    decreases section.len(),
{
    if i < section.len() - 1 {
        let rest = section.drop_last();
        lemma_with_section_last_wins(targets, rest, destination, i);
    }
}

/// A name for which the section holds no entry keeps the target it had.
pub proof fn lemma_with_section_keeps(
    targets: Map<Seq<char>, LocatedTargetView>,
    section: Seq<MappingView>,
    destination: Destination,
    name: Seq<char>,
)
    requires
        forall|i: int| 0 <= i < section.len() ==> (#[trigger] section[i]).source != name,
    ensures
        with_section(targets, section, destination).contains_key(name) == targets.contains_key(name),
        with_section(targets, section, destination)[name] == targets[name],
    decreases section.len(),
{
    if section.len() > 0 {
        let rest = section.drop_last();
        lemma_with_section_keeps(targets, rest, destination, name);
    }
}

/// A specification without entries resolves to a context without targets.
pub proof fn lemma_no_entries_no_targets(spec: SpecView)
    requires
        spec.home.len() == 0,
        spec.config.len() == 0,
    ensures
        context_of(spec).targets == Map::<Seq<char>, LocatedTargetView>::empty(),
{
}

} // verus!
