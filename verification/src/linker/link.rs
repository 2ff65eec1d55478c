//! Planning one link and telling its status.
use crate::collections::option_text;
use crate::environment::types::{Environment, EnvironmentView};
use crate::fs::{IoError, LinkReader, MetadataChecks};
use crate::linker::types::{DotLink, DotLinkView, DotStatus, DotStatusView};
use crate::mapping::{
    resolved_name, Destination, DotMap, LocatedTarget, LocatedTargetView, TargetView,
};
use crate::paths::{
    file_name_spec, is_absolute, is_plain_name, join, lemma_file_name_of_join, spec_is_absolute,
    spec_join,
};
use crate::relative::{
    from_path, normalize, normalize_spec, relative_form, relative_to, relative_to_spec,
    same_components, same_components_spec,
};
use relative_path::{FromPathError, RelativeToError};
use vstd::prelude::*;

verus! {

/// Why a link could not be planned or checked.
#[derive(Debug)]
pub enum DotLinkerError {
    /// The content of a link is no relative path.
    FromPath(FromPathError),
    /// No relative path leads from the target's directory to the source.
    RelativePath(RelativeToError),
    /// The file system refused an answer.
    Io(IoError),
}

/// What stands at the path where a link is planned.
#[derive(Debug, PartialEq, Eq)]
pub enum Found {
    /// Nothing at all.
    Nothing,
    /// Something that is no symbolic link.
    NotALink,
    /// A symbolic link with this content.
    Link(String),
}

pub enum FoundView {
    Nothing,
    NotALink,
    Link(Seq<char>),
}

impl View for Found {
    type V = FoundView;

    open spec fn view(&self) -> FoundView {
        match self {
            Found::Nothing => FoundView::Nothing,
            Found::NotALink => FoundView::NotALink,
            Found::Link(content) => FoundView::Link(content@),
        }
    }
}

/// What stands at a path, by what the file system said of it: `link` is the
/// content of the link where the path is a symbolic link, whether or not
/// what it leads to is there; of any other path, `present` tells whether
/// something stands there.
pub open spec fn found_of(link: Option<Seq<char>>, present: bool) -> FoundView {
    match link {
        Some(content) => FoundView::Link(content),
        None => if present {
            FoundView::NotALink
        } else {
            FoundView::Nothing
        },
    }
}

impl Found {
    /// What stands at a path, by what the file system said of it: see
    /// [`found_of`].
    pub fn from_answers(link: Option<String>, present: bool) -> (found: Found)
        ensures
            found@ == found_of(option_text(link), present),
    {
        match link {
            Some(content) => Found::Link(content),
            None => if present {
                Found::NotALink
            } else {
                Found::Nothing
            },
        }
    }
}

/// The link for a target whose source has the real path `canonical`: it
/// stands under the destination's root by its resolved name, and holds the
/// relative path from that root to the source. There is none where no
/// relative path leads from the root to the source.
pub open spec fn planned_link(
    environment: EnvironmentView,
    target: LocatedTargetView,
    canonical: Seq<char>,
) -> Option<DotLinkView> {
    planned_with(
        environment,
        target,
        relative_to_spec(canonical, environment.root(target.destination)),
    )
}

/// The link for a target, given the relative path that leads from the root
/// of its destination to its source, where there is one: it stands under
/// that root by the resolved name of the target, and holds that path.
pub open spec fn planned_with(
    environment: EnvironmentView,
    target: LocatedTargetView,
    relative: Option<Seq<char>>,
) -> Option<DotLinkView> {
    let root = environment.root(target.destination);
    let name = resolved_name(target.target, target.destination.spec_dot_default());
    match relative {
        Some(relative) => Some(DotLinkView { target: spec_join(root, name), link: relative }),
        None => None,
    }
}

/// The status of a relative link whose normalized content is `normal`, given
/// whether that content has the components of the planned one.
pub open spec fn status_of_relative(normal: Seq<char>, same: bool) -> DotStatusView {
    if same {
        DotStatusView::Confirmed
    } else {
        DotStatusView::WrongLink(normal)
    }
}

/// The status of a link planned to hold `planned`, by what was found in its
/// place. An absolute link is reported as such whatever it leads to; the
/// content of any other link is a relative path, which is normalized and held
/// against the planned one.
pub open spec fn status_of(found: FoundView, planned: Seq<char>) -> DotStatusView {
    match found {
        FoundView::Nothing => DotStatusView::Pending,
        FoundView::NotALink => DotStatusView::Clobber,
        FoundView::Link(content) => if spec_is_absolute(content) {
            DotStatusView::AbsoluteLink(content)
        } else {
            let normal = normalize_spec(relative_form(content));
            status_of_relative(normal, same_components_spec(normal, planned))
        },
    }
}

impl DotLink {
    /// Plans the link for `target`, whose source has the real path
    /// `canonical`: see [`planned_link`].
    pub fn plan(environment: &Environment, target: &LocatedTarget, canonical: &str) -> (planned:
        Result<DotLink, DotLinkerError>)
        ensures
            match planned {
                Ok(link) => planned_link(environment@, target@, canonical@) == Some(link@),
                Err(error) => error is RelativePath && planned_link(
                    environment@,
                    target@,
                    canonical@,
                ) is None,
            },
    {
        let data = environment.destination_data(&target.destination);
        DotLink::planned(environment, target, relative_to(canonical, data.path))
    }

    /// The link for `target`, given what came of looking for the relative
    /// path from the root of its destination to its source: see
    /// [`planned_with`].
    pub fn planned(
        environment: &Environment,
        target: &LocatedTarget,
        relative: Result<String, RelativeToError>,
    ) -> (planned: Result<DotLink, DotLinkerError>)
        ensures
            match planned {
                Ok(link) => relative matches Ok(found) && planned_with(
                    environment@,
                    target@,
                    Some(found@),
                ) == Some(link@),
                Err(error) => error is RelativePath && relative is Err,
            },
    {
        let data = environment.destination_data(&target.destination);
        let name = target.target.resolve(data.dot_default);
        let target_path = join(data.path, name.as_str());
        match relative {
            Ok(link_path) => Ok(DotLink::new(target_path, link_path)),
            Err(error) => Err(DotLinkerError::RelativePath(error)),
        }
    }
}

impl DotStatus {
    /// The status of a relative link: see [`status_of_relative`].
    pub fn of_relative(normal: String, same: bool) -> (status: DotStatus)
        ensures
            status@ == status_of_relative(normal@, same),
    {
        if same {
            DotStatus::Confirmed
        } else {
            DotStatus::WrongLink(normal)
        }
    }

    /// The status of a link planned to hold `planned`, by what was found in
    /// its place: see [`status_of`].
    pub fn of(found: Found, planned: &str) -> (status: Result<DotStatus, DotLinkerError>)
        ensures
            status matches Ok(status) && status@ == status_of(found@, planned@),
    {
        match found {
            Found::Nothing => Ok(DotStatus::Pending),
            Found::NotALink => Ok(DotStatus::Clobber),
            Found::Link(content) => {
                if is_absolute(content.as_str()) {
                    return Ok(DotStatus::AbsoluteLink(content));
                }
                match from_path(content.as_str()) {
                    Ok(relative) => {
                        let normal = normalize(relative.as_str());
                        let same = same_components(normal.as_str(), planned);
                        Ok(DotStatus::of_relative(normal, same))
                    },
                    Err(error) => Err(DotLinkerError::FromPath(error)),
                }
            },
        }
    }
}

/// Plans links and checks them against a file system.
#[derive(Debug)]
pub struct DotLinker<'a, MC: MetadataChecks, LR: LinkReader> {
    metadata_checks: &'a MC,
    link_reader: &'a LR,
}

impl<'a, MC: MetadataChecks, LR: LinkReader> DotLinker<'a, MC, LR> {
    /// What the linker asks about paths.
    pub closed spec fn metadata_checks(&self) -> &MC {
        self.metadata_checks
    }

    /// What the linker reads links and real paths with.
    pub closed spec fn link_reader(&self) -> &LR {
        self.link_reader
    }

    pub fn new(metadata_checks: &'a MC, link_reader: &'a LR) -> (linker: Self)
        ensures
            linker.metadata_checks() == metadata_checks,
            linker.link_reader() == link_reader,
    {
        DotLinker { metadata_checks, link_reader }
    }

    /// Plans the link for `map`. The file system gives the real path of the
    /// source; the link is the one planned for that path, whatever it is.
    pub fn create_link(&self, environment: &Environment, map: &DotMap) -> (planned: Result<
        DotLink,
        DotLinkerError,
    >)
        ensures
            match planned {
                Ok(link) => exists|canonical: Seq<char>|
                    planned_link(environment@, map.target@, canonical) == Some(link@),
                Err(error) => error is Io || (error is RelativePath && exists|canonical: Seq<char>|
                    planned_link(environment@, map.target@, canonical) is None),
            },
    {
        match self.link_reader.canonicalize(map.source.as_str()) {
            Ok(canonical) => DotLink::plan(environment, &map.target, canonical.as_str()),
            Err(error) => Err(DotLinkerError::Io(error)),
        }
    }

    /// Looks at what stands at the link's target. The file system is asked
    /// first whether a symbolic link stands there, and for its content if so:
    /// a link is found as a link even where what it leads to is missing. Of
    /// any other path it is asked whether something stands there. What is
    /// found is what [`Found::from_answers`] makes of the answers.
    fn find(&self, link: &DotLink) -> (found: Result<Found, IoError>)
        ensures
            match found {
                Ok(found) => exists|content: Option<Seq<char>>, present: bool|
                    found@ == #[trigger] found_of(content, present),
                Err(_) => true,
            },
    {
        if self.metadata_checks.is_symlink(link.target.as_str()) {
            match self.link_reader.read_link(link.target.as_str()) {
                Ok(content) => {
                    let found = Found::from_answers(Some(content), true);
                    assert(found@ == found_of(Some(content@), true));
                    Ok(found)
                },
                Err(error) => Err(error),
            }
        } else {
            let present = self.metadata_checks.path_exists(link.target.as_str());
            let found = Found::from_answers(None, present);
            assert(found@ == found_of(None, present));
            Ok(found)
        }
    }

    /// The status of `link` on the file system: the one that [`status_of`]
    /// gives for what was found at its target. Only a failure to read the
    /// link is an error.
    pub fn check(&self, link: &DotLink) -> (status: Result<DotStatus, DotLinkerError>)
        ensures
            match status {
                Ok(status) => exists|found: FoundView| status@ == status_of(found, link.link@),
                Err(error) => error is Io,
            },
    {
        match self.find(link) {
            Ok(found) => DotStatus::of(found, link.link.as_str()),
            Err(error) => Err(DotLinkerError::Io(error)),
        }
    }
}

/// A symbolic link is found as a link whether or not what it leads to is
/// there: its status is never pending and never a clobber, and where its
/// content is relative and, once normalized, has other components than the
/// planned path, it is a wrong link with that normalized content.
pub proof fn lemma_links_are_found_as_links(content: Seq<char>, present: bool, planned: Seq<char>)
    ensures
        status_of(found_of(Some(content), present), planned) == status_of(
            FoundView::Link(content),
            planned,
        ),
        status_of(found_of(Some(content), present), planned) != DotStatusView::Pending,
        status_of(found_of(Some(content), present), planned) != DotStatusView::Clobber,
        !spec_is_absolute(content) && !same_components_spec(
            normalize_spec(relative_form(content)),
            planned,
        ) ==> status_of(found_of(Some(content), present), planned) == DotStatusView::WrongLink(
            normalize_spec(relative_form(content)),
        ),
{
}

/// A relative link whose content, once normalized, is the planned path is
/// confirmed; an absolute link is never confirmed.
pub proof fn lemma_confirmed_links(content: Seq<char>, planned: Seq<char>)
    ensures
        !spec_is_absolute(content) && normalize_spec(relative_form(content)) == planned
            ==> status_of(FoundView::Link(content), planned) == DotStatusView::Confirmed,
        spec_is_absolute(content) ==> status_of(FoundView::Link(content), planned)
            == DotStatusView::AbsoluteLink(content),
{
}

/// A planned link stands under the root of its destination, and where the
/// resolved name is a plain name, that name is its file name.
pub proof fn lemma_planned_file_name(
    environment: EnvironmentView,
    target: LocatedTargetView,
    canonical: Seq<char>,
)
    requires
        planned_link(environment, target, canonical) is Some,
        is_plain_name(resolved_name(target.target, target.destination.spec_dot_default())),
    ensures
        file_name_spec(planned_link(environment, target, canonical)->Some_0.target) == Some(
            resolved_name(target.target, target.destination.spec_dot_default()),
        ),
{
    lemma_file_name_of_join(
        environment.root(target.destination),
        resolved_name(target.target, target.destination.spec_dot_default()),
    );
}

/// For a plain name, the file name of the planned link is the name behind a
/// dot under the home root without an override, and the name as it is under
/// the configuration root without an override or under the home root with
/// an override of `false`.
pub proof fn lemma_planned_file_name_by_destination(
    environment: EnvironmentView,
    name: Seq<char>,
    canonical: Seq<char>,
)
    requires
        is_plain_name(name),
    ensures
        planned_link(
            environment,
            LocatedTargetView { target: TargetView { name, dot: None }, destination: Destination::Home },
            canonical,
        ) matches Some(link) ==> file_name_spec(link.target) == Some(seq!['.'] + name),
        planned_link(
            environment,
            LocatedTargetView {
                target: TargetView { name, dot: None },
                destination: Destination::Config,
            },
            canonical,
        ) matches Some(link) ==> file_name_spec(link.target) == Some(name),
        planned_link(
            environment,
            LocatedTargetView {
                target: TargetView { name, dot: Some(false) },
                destination: Destination::Home,
            },
            canonical,
        ) matches Some(link) ==> file_name_spec(link.target) == Some(name),
{
    let dotted = seq!['.'] + name;
    assert(is_plain_name(dotted)) by {
        assert(dotted.len() == name.len() + 1);
        assert(dotted[1] == name[0]);
        if dotted == seq!['.', '.'] {
            assert(name =~= seq!['.']);
        }
        if dotted.contains('/') {
            let i = choose|i: int| 0 <= i < dotted.len() && dotted[i] == '/';
            assert(name[i - 1] == '/');
        }
    }
    lemma_file_name_of_join(environment.home, dotted);
    lemma_file_name_of_join(environment.home, name);
    lemma_file_name_of_join(environment.config, name);
}

} // verus!
