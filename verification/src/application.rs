//! The capabilities that a run works with, in one place.
use crate::action::directory_creator::DirectoryCreator;
use crate::actions::Actions;
use crate::config::rc::RcSource;
use crate::config::spec::SpecSource;
use crate::environment::checks::home::HomeCheck;
use crate::environment::checks::structure::StructureCheck;
use crate::environment::checks::tree::LayoutCheck;
use crate::environment::inference::EnvironmentInference;
use crate::environment::types::Environment;
use crate::fs::{DirectoryListing, FsRead, LinkReader, MetadataChecks};
use crate::prompting::Prompter;
use crate::repo::checks::StructureCheck as RepoStructureCheck;
use crate::repo::types::Repo;
use crate::validation::containment::ContainmentCheck;
use crate::validation::directory::DirectoryCheck;
use vstd::prelude::*;

verus! {

/// An environment with the repository that belongs to it.
#[derive(Debug, PartialEq, Eq)]
pub struct Dotzo {
    pub environment: Environment,
    pub repo: Repo,
}

impl Dotzo {
    pub fn new(environment: Environment, repo: Repo) -> (dotzo: Self)
        ensures
            dotzo.environment == environment,
            dotzo.repo == repo,
    {
        Dotzo { environment, repo }
    }
}

/// The capabilities of a run, and the checks that are built from them.
pub trait App<'a> {
    type MC: MetadataChecks;

    type LR: LinkReader;

    type DL: DirectoryListing;

    type A: Actions;

    type PR: Prompter;

    type EI: EnvironmentInference;

    type SS: SpecSource;

    type RS: RcSource;

    /// What paths are asked about.
    spec fn spec_metadata_checks(&self) -> &Self::MC;

    fn metadata_checks(&self) -> (given: &'a Self::MC)
        ensures
            given == self.spec_metadata_checks(),
    ;

    /// What links and real paths are read with.
    spec fn spec_link_reader(&self) -> &Self::LR;

    fn link_reader(&self) -> (given: &'a Self::LR)
        ensures
            given == self.spec_link_reader(),
    ;

    /// What directories are listed with.
    spec fn spec_directory_listing(&self) -> &Self::DL;

    fn directory_listing(&self) -> (given: &'a Self::DL)
        ensures
            given == self.spec_directory_listing(),
    ;

    /// What changes are made with.
    spec fn spec_actions(&self) -> &Self::A;

    fn actions(&self) -> (given: &'a Self::A)
        ensures
            given == self.spec_actions(),
    ;

    /// Who is asked.
    spec fn spec_prompter(&self) -> &Self::PR;

    fn prompter(&self) -> (given: &'a Self::PR)
        ensures
            given == self.spec_prompter(),
    ;

    /// What the environment is made out with.
    spec fn spec_inference(&self) -> &Self::EI;

    fn inference(&self) -> (given: &'a Self::EI)
        ensures
            given == self.spec_inference(),
    ;

    /// Where the specifications of directories come from.
    spec fn spec_spec_source(&self) -> &Self::SS;

    fn spec_source(&self) -> (given: &'a Self::SS)
        ensures
            given == self.spec_spec_source(),
    ;

    /// Where the description of the repository comes from.
    spec fn spec_rc_source(&self) -> &Self::RS;

    fn rc_source(&self) -> (given: &'a Self::RS)
        ensures
            given == self.spec_rc_source(),
    ;

    /// The check on the directories of the environment.
    fn layout_check(&self, yes: bool, create_directories: bool) -> (check: LayoutCheck<
        'a,
        Self::MC,
        Self::A,
        Self::PR,
    >)
        ensures
            check.yes == yes,
            check.create_directories == create_directories,
            check.directory_checker.metadata_checks() == self.spec_metadata_checks(),
            check.directory_creator.actions() == self.spec_actions(),
            check.directory_creator.prompter() == self.spec_prompter(),
    {
        let directory_checker = DirectoryCheck::new(self.metadata_checks());
        let directory_creator = DirectoryCreator::new(self.actions(), self.prompter());
        LayoutCheck::new(directory_checker, directory_creator, yes, create_directories)
    }

    /// The check that the environment lies within the home directory.
    fn structure_check(&self) -> (check: StructureCheck<'a, Self::MC, Self::LR>)
        ensures
            check.containment.metadata_checks() == self.spec_metadata_checks(),
            check.containment.link_reader() == self.spec_link_reader(),
    {
        StructureCheck::new(ContainmentCheck::new(self.metadata_checks(), self.link_reader()))
    }

    /// The check on the layout of the repository.
    fn repo_structure_check(&self) -> (check: RepoStructureCheck<'a, Self::MC>)
        ensures
            check.repo_check.metadata_checks() == self.spec_metadata_checks(),
            check.etc_check.metadata_checks() == self.spec_metadata_checks(),
    {
        RepoStructureCheck::new(
            DirectoryCheck::new(self.metadata_checks()),
            DirectoryCheck::new(self.metadata_checks()),
        )
    }

    /// The check on the home directory.
    fn home_check(&self) -> (check: HomeCheck<'a, Self::MC>)
        ensures
            check.directory_check.metadata_checks() == self.spec_metadata_checks(),
    {
        HomeCheck::new(DirectoryCheck::new(self.metadata_checks()))
    }
}

/// The capabilities of a run, each one given.
#[derive(Debug)]
pub struct DotzoApp<
    'a,
    MC: MetadataChecks,
    LR: LinkReader,
    DL: DirectoryListing,
    A: Actions,
    PR: Prompter,
    EI: EnvironmentInference,
    SS: SpecSource,
    RS: RcSource,
> {
    metadata_checks: &'a MC,
    link_reader: &'a LR,
    directory_listing: &'a DL,
    actions: &'a A,
    prompter: &'a PR,
    inference: &'a EI,
    spec_source: &'a SS,
    rc_source: &'a RS,
}

impl<
    'a,
    MC: MetadataChecks,
    LR: LinkReader,
    DL: DirectoryListing,
    A: Actions,
    PR: Prompter,
    EI: EnvironmentInference,
    SS: SpecSource,
    RS: RcSource,
> DotzoApp<'a, MC, LR, DL, A, PR, EI, SS, RS> {
    pub fn new(
        metadata_checks: &'a MC,
        link_reader: &'a LR,
        directory_listing: &'a DL,
        actions: &'a A,
        prompter: &'a PR,
        inference: &'a EI,
        spec_source: &'a SS,
        rc_source: &'a RS,
    ) -> (app: Self)
        ensures
            app.spec_metadata_checks() == metadata_checks,
            app.spec_link_reader() == link_reader,
            app.spec_directory_listing() == directory_listing,
            app.spec_actions() == actions,
            app.spec_prompter() == prompter,
            app.spec_inference() == inference,
            app.spec_spec_source() == spec_source,
            app.spec_rc_source() == rc_source,
    {
        DotzoApp {
            metadata_checks,
            link_reader,
            directory_listing,
            actions,
            prompter,
            inference,
            spec_source,
            rc_source,
        }
    }
}

impl<
    'a,
    MC: MetadataChecks,
    LR: LinkReader,
    DL: DirectoryListing,
    A: Actions,
    PR: Prompter,
    EI: EnvironmentInference,
    SS: SpecSource,
    RS: RcSource,
> App<'a> for DotzoApp<'a, MC, LR, DL, A, PR, EI, SS, RS> {
    type MC = MC;

    type LR = LR;

    type DL = DL;

    type A = A;

    type PR = PR;

    type EI = EI;

    type SS = SS;

    type RS = RS;

    closed spec fn spec_metadata_checks(&self) -> &Self::MC {
        self.metadata_checks
    }

    fn metadata_checks(&self) -> (given: &'a Self::MC) {
        self.metadata_checks
    }

    closed spec fn spec_link_reader(&self) -> &Self::LR {
        self.link_reader
    }

    fn link_reader(&self) -> (given: &'a Self::LR) {
        self.link_reader
    }

    closed spec fn spec_directory_listing(&self) -> &Self::DL {
        self.directory_listing
    }

    fn directory_listing(&self) -> (given: &'a Self::DL) {
        self.directory_listing
    }

    closed spec fn spec_actions(&self) -> &Self::A {
        self.actions
    }

    fn actions(&self) -> (given: &'a Self::A) {
        self.actions
    }

    closed spec fn spec_prompter(&self) -> &Self::PR {
        self.prompter
    }

    fn prompter(&self) -> (given: &'a Self::PR) {
        self.prompter
    }

    closed spec fn spec_inference(&self) -> &Self::EI {
        self.inference
    }

    fn inference(&self) -> (given: &'a Self::EI) {
        self.inference
    }

    closed spec fn spec_spec_source(&self) -> &Self::SS {
        self.spec_source
    }

    fn spec_source(&self) -> (given: &'a Self::SS) {
        self.spec_source
    }

    closed spec fn spec_rc_source(&self) -> &Self::RS {
        self.rc_source
    }

    fn rc_source(&self) -> (given: &'a Self::RS) {
        self.rc_source
    }
}

impl<'a, FS: FsRead, A: Actions, PR: Prompter, EI: EnvironmentInference, SS: SpecSource, RS: RcSource> DotzoApp<
    'a,
    FS,
    FS,
    FS,
    A,
    PR,
    EI,
    SS,
    RS,
> {
    /// The capabilities of a run that reads everything from one file system.
    pub fn new_with_fs(
        fs: &'a FS,
        actions: &'a A,
        prompter: &'a PR,
        inference: &'a EI,
        spec_source: &'a SS,
        rc_source: &'a RS,
    ) -> (app: Self)
        ensures
            app.spec_metadata_checks() == fs,
            app.spec_link_reader() == fs,
            app.spec_directory_listing() == fs,
            app.spec_actions() == actions,
            app.spec_prompter() == prompter,
            app.spec_inference() == inference,
            app.spec_spec_source() == spec_source,
            app.spec_rc_source() == rc_source,
    {
        DotzoApp::new(fs, fs, fs, actions, prompter, inference, spec_source, rc_source)
    }
}

} // verus!
