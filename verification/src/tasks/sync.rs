//! Bringing the links of the environment in line with the repository.
use crate::action::make_link::{is_creation_of, LinkCreator, LinkCreatorError};
use crate::actions::Actions;
use crate::application::{App, Dotzo};
use crate::cli::Cli;
use crate::collections::{key_texts, lemma_map_of_entry};
use crate::environment::checks::structure::StructureCheckError;
use crate::environment::types::{Environment, EnvironmentView};
use crate::fs::{LinkReader, MetadataChecks};
use crate::linker::link::{DotLinker, DotLinkerError};
use crate::linker::reconciliation::{
    answered, reconciled, Answer, DotReconciliation, DotReconciliationError, DotReconciliationView,
    Outcome,
};
use crate::linker::types::{link_views, DotLink};
use crate::mapping::{DotMap, DotMapView, LocatedTargetView};
use crate::prompting::{Prompter, PrompterError};
use crate::paths::spec_join;
use crate::repo::tree::{
    dot_map_views, is_complete, is_walk, is_walk_failure, lemma_mappings_keyed_by_source,
    lemma_walk_without_targets, mapping_of,
    report_of, report_views, DirData, DirDataView, TreeTraverser, TreeTraverserError, Visit,
};
use crate::text::{decimal, decimal_digits};
use vstd::prelude::*;
use vstd::string::StringExecFns;

verus! {

/// Why a sync was given up.
#[derive(Debug)]
pub enum SyncTaskError {
    Prompt(PrompterError),
    Structure(StructureCheckError),
    Reconciliation(DotReconciliationError),
    Link(DotLinkerError),
    LinkCreation(LinkCreatorError),
    Traversal(TreeTraverserError),
}

/// What a repository asks of an environment: the links to have, by what was
/// found in their place, with the notes on each directory of the repository.
#[derive(Debug)]
pub struct SyncPlan {
    /// The number of mappings in the repository.
    pub link_count: usize,
    pub reconciliation: DotReconciliation,
    pub reports: Vec<DirData>,
}

pub struct SyncPlanView {
    pub link_count: nat,
    pub reconciliation: DotReconciliationView,
    pub reports: Seq<DirDataView>,
}

impl View for SyncPlan {
    type V = SyncPlanView;

    open spec fn view(&self) -> SyncPlanView {
        SyncPlanView {
            link_count: self.link_count as nat,
            reconciliation: self.reconciliation@,
            reports: report_views(self.reports@),
        }
    }
}

/// Whether `maps` lists the mappings of `mapping`, each source once.
pub open spec fn lists_mappings(maps: Seq<DotMap>, mapping: Map<Seq<char>, DotMapView>) -> bool {
    &&& forall|i: int, j: int|
        0 <= i < j < maps.len() ==> (#[trigger] maps[i]).source@ != (#[trigger] maps[j]).source@
    &&& forall|i: int|
        0 <= i < maps.len() ==> mapping.contains_key((#[trigger] maps[i]).source@)
            && mapping[maps[i].source@] == maps[i]@
    &&& forall|source: Seq<char>| #[trigger]
        mapping.contains_key(source) ==> exists|i: int|
            0 <= i < maps.len() && (#[trigger] maps[i]).source@ == source
}

/// Whether `plan` is what the visits of a walk from `root` and the answers
/// for the mappings they gather come to in `environment`.
pub open spec fn is_plan_of(
    plan: SyncPlanView,
    environment: EnvironmentView,
    root: Seq<char>,
    visits: Seq<Visit>,
    maps: Seq<DotMap>,
    answers: Seq<Answer>,
    outcomes: Seq<Outcome>,
) -> bool {
    &&& is_walk(visits, root)
    &&& is_complete(visits)
    &&& visits.len() > 0
    &&& lists_mappings(maps, mapping_of(visits))
    &&& answered(environment, maps, answers, outcomes)
    &&& plan.link_count == maps.len()
    &&& plan.reconciliation == reconciled(outcomes)
    &&& plan.reports == visits.map_values(|visit: Visit| report_of(visit))
}

/// Whether `report` gives the counts and the notes of `plan`.
pub open spec fn reports_on(report: SyncReport, plan: SyncPlanView) -> bool {
    &&& report.link_count == plan.link_count
    &&& report.confirmed == plan.reconciliation.confirmed.len()
    &&& report.pending == plan.reconciliation.pending.len()
    &&& report_views(report.reports@) == plan.reports
}

/// Whether every mapped link is in place already.
pub open spec fn is_synced(confirmed: nat, link_count: nat) -> bool {
    confirmed == link_count
}

/// Whether the user is asked about creating links: only where something is
/// out of line and links are pending.
pub open spec fn calls_for_question(confirmed: nat, pending: nat, link_count: nat) -> bool {
    !is_synced(confirmed, link_count) && pending > 0
}

/// The question put before links are created.
pub open spec fn links_question(pending: nat) -> Seq<char> {
    "Create "@ + decimal_digits(pending) + " new links?"@
}

/// How a sync went.
#[derive(Debug)]
pub struct SyncReport {
    /// The number of mappings in the repository.
    pub link_count: usize,
    /// The number of links that were in place already.
    pub confirmed: usize,
    /// The number of links that could be created.
    pub pending: usize,
    /// Whether the user was asked about creating the pending links.
    pub asked: bool,
    /// What the user answered, where asked.
    pub agreed: Option<bool>,
    /// The number of links that were created.
    pub created: usize,
    /// The notes on each directory of the repository.
    pub reports: Vec<DirData>,
}

/// Whether the user is asked about creating links: see [`calls_for_question`].
pub fn needs_question(confirmed: usize, pending: usize, link_count: usize) -> (asked: bool)
    ensures
        asked == calls_for_question(confirmed as nat, pending as nat, link_count as nat),
{
    confirmed != link_count && pending > 0
}

/// The question put before links are created: see [`links_question`].
pub fn question(pending: usize) -> (question: String)
    ensures
        question@ == links_question(pending as nat),
{
    String::from_str("Create ").concat(decimal(pending).as_str()).concat(" new links?")
}

/// The number of links that were made, among the outcomes of creating links.
pub open spec fn made_count(outcomes: Seq<Result<bool, LinkCreatorError>>) -> nat
    decreases outcomes.len(),
{
    if outcomes.len() == 0 {
        0
    } else if outcomes.last() == Ok::<bool, LinkCreatorError>(true) {
        made_count(outcomes.drop_last()) + 1
    } else {
        made_count(outcomes.drop_last())
    }
}

/// Whether `outcomes` are, one for one, what came of creating `links`, no
/// creation having failed.
pub open spec fn creations_of(links: Seq<DotLink>, outcomes: Seq<Result<bool, LinkCreatorError>>) -> bool {
    &&& outcomes.len() == links.len()
    &&& forall|i: int|
        0 <= i < links.len() ==> (#[trigger] outcomes[i]) is Ok && is_creation_of(
            links[i].link@,
            outcomes[i],
        )
}

/// Creates the pending links, in order, where the user agreed to it, and
/// counts those that were made: a link that was there already, and right,
/// is not counted. Without agreement nothing is created and nothing can
/// fail. The first link that cannot be created ends the task with the
/// error of its creation.
pub fn create_pending<MC: MetadataChecks, LR: LinkReader, A: Actions>(
    creator: &LinkCreator<'_, MC, LR, A>,
    links: &Vec<DotLink>,
    agreed: bool,
) -> (created: Result<usize, LinkCreatorError>)
    ensures
        match created {
            Ok(count) => {
                &&& count <= links.len()
                &&& !agreed ==> count == 0
                &&& agreed ==> exists|outcomes: Seq<Result<bool, LinkCreatorError>>|
                    #[trigger] creations_of(links@, outcomes) && count == made_count(outcomes)
            },
            Err(error) => agreed && exists|i: int|
                0 <= i < links.len() && is_creation_of(
                    (#[trigger] links[i]).link@,
                    Err::<bool, LinkCreatorError>(error),
                ),
        },
{
    let mut count: usize = 0;
    if agreed {
        let ghost mut outcomes: Seq<Result<bool, LinkCreatorError>> = Seq::empty();
        let mut i: usize = 0;
        while i < links.len()
            invariant
                agreed,
                i <= links.len(),
                count <= i,
                creations_of(links@.take(i as int), outcomes),
                count == made_count(outcomes),
            decreases links.len() - i,
        {
            let created = creator.create(&links[i]);
            match created {
                Ok(made) => {
                    if made {
                        count += 1;
                    }
                },
                Err(error) => {
                    return Err(error);
                },
            }
            proof {
                let before = outcomes;
                outcomes = outcomes.push(created);
                assert(outcomes.drop_last() =~= before);
                assert(links@.take(i + 1) =~= links@.take(i as int).push(links[i as int]));
                assert forall|j: int| 0 <= j < i + 1 implies (#[trigger] outcomes[j]) is Ok
                    && is_creation_of(links@.take(i + 1)[j].link@, outcomes[j]) by {
                    if j < i {
                        assert(outcomes[j] == before[j]);
                        assert(links@.take(i + 1)[j] == links@.take(i as int)[j]);
                    }
                }
            }
            i += 1;
        }
        proof {
            assert(links@.take(links.len() as int) =~= links@);
        }
    }
    Ok(count)
}

/// Walks the repository below `repository_root`, plans the link of every
/// mapping found and checks it against the file system. The first failure
/// ends the task.
///
/// On success there are visits that make up a walk from the root, and
/// answers of the file system for the mappings gathered on it, which the
/// plan is the outcome of: see [`is_plan_of`].
pub fn sync_plan<'a, APP: App<'a>>(
    app: &'a APP,
    environment: &Environment,
    repository_root: &str,
) -> (planned: Result<SyncPlan, SyncTaskError>)
    ensures
        match planned {
            Ok(plan) => exists|
                visits: Seq<Visit>,
                maps: Seq<DotMap>,
                answers: Seq<Answer>,
                outcomes: Seq<Outcome>,
            | #[trigger]
                is_plan_of(plan@, environment@, repository_root@, visits, maps, answers, outcomes),
            Err(error) => match error {
                SyncTaskError::Traversal(cause) => is_walk_failure(cause),
                SyncTaskError::Reconciliation(_) => true,
                _ => false,
            },
        },
{
    let linker = DotLinker::new(app.metadata_checks(), app.link_reader());
    let traverser = TreeTraverser::new(
        app.metadata_checks(),
        app.directory_listing(),
        app.spec_source(),
    );
    let walked = match traverser.walk(repository_root) {
        Ok(walked) => walked,
        Err(error) => {
            return Err(SyncTaskError::Traversal(error));
        },
    };
    let ghost visits = choose|visits: Seq<Visit>|
        {
            &&& #[trigger] is_walk(visits, repository_root@)
            &&& is_complete(visits)
            &&& visits.len() > 0
            &&& dot_map_views(walked.mapping@) == mapping_of(visits)
            &&& report_views(walked.reports@) == visits.map_values(|visit: Visit| report_of(visit))
        };
    let reports = walked.reports;
    let entries = walked.mapping.into_entries();
    let link_count = entries.len();
    let mut maps: Vec<DotMap> = Vec::new();
    let mut i: usize = 0;
    while i < entries.len()
        invariant
            i <= entries.len(),
            maps.len() == i,
            forall|j: int| 0 <= j < i ==> #[trigger] maps[j] == entries[j].1,
        decreases entries.len() - i,
    {
        maps.push(entries[i].1.clone());
        i += 1;
    }
    proof {
        assert forall|j: int| 0 <= j < maps.len() implies mapping_of(visits).contains_key(
            (#[trigger] maps[j]).source@,
        ) && mapping_of(visits)[maps[j].source@] == maps[j]@ && maps[j].source@ == key_texts(
            entries@,
        )[j] by {
            lemma_map_of_entry(entries@, j);
            let key = entries[j].0@;
            lemma_mappings_keyed_by_source(visits, key);
        }
        assert forall|source: Seq<char>| #[trigger]
            mapping_of(visits).contains_key(source) implies exists|j: int|
            0 <= j < maps.len() && (#[trigger] maps[j]).source@ == source by {
            let j = choose|j: int| 0 <= j < entries.len() && key_texts(entries@)[j] == source;
            assert(maps[j].source@ == source);
        }
    }
    let ghost listed = maps@;
    let reconciliation = match DotReconciliation::with_linker(&linker, environment, maps) {
        Ok(reconciliation) => reconciliation,
        Err(error) => {
            return Err(SyncTaskError::Reconciliation(error));
        },
    };
    let planned: Result<SyncPlan, SyncTaskError> = Ok(SyncPlan { link_count, reconciliation, reports });
    proof {
        let plan = planned->Ok_0;
        let (answers, outcomes) = choose|answers: Seq<Answer>, outcomes: Seq<Outcome>|
            #![trigger answered(environment@, listed, answers, outcomes)]
            answered(environment@, listed, answers, outcomes) && reconciliation@ == reconciled(
                outcomes,
            );
        assert(is_plan_of(plan@, environment@, repository_root@, visits, listed, answers, outcomes));
    }
    planned
}

/// Checks that the environment lies within the home directory, plans the
/// links that the repository asks for, and, where links are pending and not
/// everything is in place, asks whether to create them and does so on a yes.
/// The first failure ends the task.
///
/// On success the report gives the counts and the notes of a plan for the
/// directory `etc` of the repository; the user was asked exactly where
/// [`calls_for_question`] says so, the report carries the answer, and no
/// link was created but on a yes. Links that are neither confirmed nor
/// pending are only counted.
pub fn sync_task<'a, APP: App<'a>>(app: &'a APP, cli: &Cli, dotzo: Dotzo) -> (synced: Result<
    SyncReport,
    SyncTaskError,
>)
    ensures
        match synced {
            Ok(report) => {
                &&& exists|
                    plan: SyncPlanView,
                    visits: Seq<Visit>,
                    maps: Seq<DotMap>,
                    answers: Seq<Answer>,
                    outcomes: Seq<Outcome>,
                |
                    #![trigger is_plan_of(
                        plan,
                        dotzo.environment@,
                        spec_join(dotzo.repo.path@, "etc"@),
                        visits,
                        maps,
                        answers,
                        outcomes,
                    )]
                    is_plan_of(
                        plan,
                        dotzo.environment@,
                        spec_join(dotzo.repo.path@, "etc"@),
                        visits,
                        maps,
                        answers,
                        outcomes,
                    ) && reports_on(report, plan)
                &&& report.asked == calls_for_question(
                    report.confirmed as nat,
                    report.pending as nat,
                    report.link_count as nat,
                )
                &&& report.asked == report.agreed is Some
                &&& report.agreed != Some(true) ==> report.created == 0
                &&& report.created <= report.pending
            },
            Err(error) => match error {
                SyncTaskError::Traversal(cause) => is_walk_failure(cause),
                SyncTaskError::Link(_) => false,
                _ => true,
            },
        },
{
    let link_creator = LinkCreator::new(app.metadata_checks(), app.link_reader(), app.actions());
    let checks = app.structure_check();
    match checks.check(&dotzo.environment) {
        Ok(()) => {},
        Err(error) => {
            return Err(SyncTaskError::Structure(error));
        },
    }
    let etc = dotzo.repo.etc();
    let plan = match sync_plan(app, &dotzo.environment, etc.as_str()) {
        Ok(plan) => plan,
        Err(error) => {
            return Err(error);
        },
    };
    let SyncPlan { link_count, reconciliation, reports } = plan;
    let confirmed = reconciliation.confirmed.len();
    let pending = reconciliation.pending.len();
    let asked = needs_question(confirmed, pending, link_count);
    let agreed = if asked {
        match app.prompter().confirm(question(pending).as_str(), false) {
            Ok(agreed) => Some(agreed),
            Err(error) => {
                return Err(SyncTaskError::Prompt(error));
            },
        }
    } else {
        None
    };
    let links = reconciliation.pending.links();
    proof {
        link_views(links@).unique_seq_to_set();
    }
    let created = match create_pending(&link_creator, links, matches!(agreed, Some(true))) {
        Ok(created) => created,
        Err(error) => {
            return Err(SyncTaskError::LinkCreation(error));
        },
    };
    Ok(SyncReport { link_count, confirmed, pending, asked, agreed, created, reports })
}

/// A plan for a repository of which no directory declares a target maps
/// nothing: it counts no link, and each of its buckets is empty.
pub proof fn lemma_plan_without_targets(
    plan: SyncPlanView,
    environment: EnvironmentView,
    root: Seq<char>,
    visits: Seq<Visit>,
    maps: Seq<DotMap>,
    answers: Seq<Answer>,
    outcomes: Seq<Outcome>,
)
    requires
        is_plan_of(plan, environment, root, visits, maps, answers, outcomes),
        forall|i: int|
            0 <= i < visits.len() ==> (#[trigger] visits[i]).context.targets == Map::<
                Seq<char>,
                LocatedTargetView,
            >::empty(),
    ensures
        mapping_of(visits) == Map::<Seq<char>, DotMapView>::empty(),
        plan.link_count == 0,
        plan.reconciliation == DotReconciliationView::empty(),
{
    lemma_walk_without_targets(visits, root);
    if maps.len() > 0 {
        assert(mapping_of(visits).contains_key(maps[0].source@));
    }
}

} // verus!
