use std::cell::RefCell;
use std::collections::BTreeMap;

use dotzo::action::directory_creator::{DirectoryCreator, DirectoryCreatorError};
use dotzo::action::make_link::{LinkCreator, LinkCreatorError};
use dotzo::actions::{Actions, DryActions, Error};
use dotzo::application::{App, Dotzo, DotzoApp};
use dotzo::cli::{Cli, Command};
use dotzo::collections::StringSet;
use dotzo::config::file::ConfigFileReadError;
use dotzo::config::rc::{Rc, RcSource, Repo as RcRepo};
use dotzo::config::spec::{Mapping, Shorthand, Spec, SpecContext, SpecSource};
use dotzo::dir::Dir;
use dotzo::environment::checks::home::{HomeCheck, HomeCheckError};
use dotzo::environment::checks::structure::StructureCheckError;
use dotzo::environment::checks::tree::{LayoutCheck, LayoutCheckError};
use dotzo::environment::inference::{DirInference, EnvironmentInferenceError};
use dotzo::environment::types::{CacheDir, ConfigDir, DataDir, Environment, Home, StateDir};
use dotzo::fs::{DirEntryResult, DirectoryListing, IoError, IoErrorKind, LinkReader, MetadataChecks};
use dotzo::linker::link::DotLinkerError;
use dotzo::linker::reconciliation::DotReconciliationError;
use dotzo::linker::types::DotLink;
use dotzo::mapping::{Destination, DotMap, LocatedTarget, Target};
use dotzo::prompting::{Prompter, PrompterError};
use dotzo::repo::checks::{StructureCheck as RepoStructureCheck, StructureCheckError as RepoStructureError};
use dotzo::repo::directory::{IgnoreType, RepoDirItem, RepoDirItemWithPath, RepoDirVisitorError};
use dotzo::repo::tree::{consume, consume_all, DirData, TreeTraverser, TreeTraverserError};
use dotzo::repo::types::Repo;
use dotzo::tasks::info::info_task;
use dotzo::tasks::init::{init_task, InitTaskError};
use dotzo::tasks::run::{run, RunOutcome, RunTaskError};
use dotzo::tasks::sync::{
    create_pending, needs_question, question, sync_plan, sync_task, SyncTaskError,
};
use dotzo::text::decimal;
use dotzo::validation::directory::{DirectoryCheck, DirectoryCheckError};

#[derive(Debug, Clone, PartialEq, Eq)]
enum Node {
    File,
    Dir,
    Link(String),
}

/// A file system in memory. Children are found by their paths.
#[derive(Debug, Default)]
struct Disk {
    nodes: RefCell<BTreeMap<String, Node>>,
    specs: BTreeMap<String, fn() -> Spec>,
    broken_specs: Vec<String>,
    rc: Option<fn() -> Rc>,
    read_only: bool,
    /// Paths whose real path cannot be had, and links that cannot be read.
    unreadable: Vec<String>,
}

impl Disk {
    fn with(self, path: &str, node: Node) -> Self {
        self.nodes.borrow_mut().insert(path.to_owned(), node);
        self
    }

    fn spec(mut self, directory: &str, spec: fn() -> Spec) -> Self {
        self.specs.insert(directory.to_owned(), spec);
        self
    }

    fn node(&self, path: &str) -> Option<Node> {
        self.nodes.borrow().get(path).cloned()
    }
}

impl MetadataChecks for Disk {
    fn is_dir(&self, path: &str) -> bool {
        matches!(self.node(path), Some(Node::Dir))
    }

    fn is_file(&self, path: &str) -> bool {
        matches!(self.node(path), Some(Node::File))
    }

    fn is_symlink(&self, path: &str) -> bool {
        matches!(self.node(path), Some(Node::Link(_)))
    }

    fn path_exists(&self, path: &str) -> bool {
        self.node(path).is_some()
    }
}

impl DirectoryListing for Disk {
    fn read_dir(&self, path: &str) -> Result<Vec<DirEntryResult>, IoError> {
        if !self.is_dir(path) {
            return Err(IoError::new(IoErrorKind::NotFound, path.to_owned()));
        }
        let prefix = format!("{}/", path);
        Ok(self
            .nodes
            .borrow()
            .keys()
            .filter(|key| key.starts_with(&prefix) && !key[prefix.len()..].contains('/'))
            .cloned()
            .map(Ok)
            .collect())
    }
}

impl LinkReader for Disk {
    fn read_link(&self, path: &str) -> Result<String, IoError> {
        if self.unreadable.iter().any(|locked| locked == path) {
            return Err(IoError::new(IoErrorKind::PermissionDenied, path.to_owned()));
        }
        match self.node(path) {
            Some(Node::Link(content)) => Ok(content),
            _ => Err(IoError::new(IoErrorKind::Other, path.to_owned())),
        }
    }

    fn canonicalize(&self, path: &str) -> Result<String, IoError> {
        if self.unreadable.iter().any(|locked| locked == path) {
            return Err(IoError::new(IoErrorKind::PermissionDenied, path.to_owned()));
        }
        if self.path_exists(path) {
            Ok(path.to_owned())
        } else {
            Err(IoError::new(IoErrorKind::NotFound, path.to_owned()))
        }
    }
}

impl SpecSource for Disk {
    fn read_spec(&self, directory: &str) -> Result<Option<Spec>, ConfigFileReadError> {
        if self.broken_specs.iter().any(|broken| broken == directory) {
            return Err(ConfigFileReadError::YamlParsing(directory.to_owned()));
        }
        Ok(self.specs.get(directory).map(|spec| spec()))
    }
}

impl RcSource for Disk {
    fn read_rc(&self, _home: &str) -> Result<Option<Rc>, ConfigFileReadError> {
        Ok(self.rc.map(|rc| rc()))
    }
}

impl Actions for Disk {
    fn make_dir(&self, path: &str) -> Result<(), Error> {
        if self.read_only {
            return Err(Error::from_io_kind(IoErrorKind::PermissionDenied));
        }
        self.nodes.borrow_mut().insert(path.to_owned(), Node::Dir);
        Ok(())
    }

    fn symlink(&self, target: &str, path: &str) -> Result<(), Error> {
        if self.read_only {
            return Err(Error::from_io_kind(IoErrorKind::PermissionDenied));
        }
        if self.path_exists(target) {
            return Err(Error::from_io_kind(IoErrorKind::AlreadyExists));
        }
        self.nodes.borrow_mut().insert(target.to_owned(), Node::Link(path.to_owned()));
        Ok(())
    }
}

/// Answers every question the same way, and remembers the questions.
#[derive(Debug)]
struct Answers {
    answer: Result<bool, &'static str>,
    asked: RefCell<Vec<String>>,
}

impl Answers {
    fn new(answer: Result<bool, &'static str>) -> Self {
        Answers { answer, asked: RefCell::new(Vec::new()) }
    }
}

impl Prompter for Answers {
    fn confirm(&self, message: &str, _default: bool) -> Result<bool, PrompterError> {
        self.asked.borrow_mut().push(message.to_owned());
        match self.answer {
            Ok(answer) => Ok(answer),
            Err(message) => Err(PrompterError::General(message.to_owned())),
        }
    }
}

#[derive(Debug)]
struct Inferred {
    home: Option<&'static str>,
}

impl DirInference<Home> for Inferred {
    fn infer(&self) -> Option<String> {
        self.home.map(str::to_owned)
    }
}

impl DirInference<ConfigDir> for Inferred {
    fn infer(&self) -> Option<String> {
        None
    }
}

impl DirInference<DataDir> for Inferred {
    fn infer(&self) -> Option<String> {
        None
    }
}

impl DirInference<StateDir> for Inferred {
    fn infer(&self) -> Option<String> {
        None
    }
}

impl DirInference<CacheDir> for Inferred {
    fn infer(&self) -> Option<String> {
        None
    }
}

fn environment() -> Environment {
    Environment::new(
        Home::new("/home/user".to_owned()),
        ConfigDir::new("/home/user/.config".to_owned()),
        DataDir::new("/home/user/.local/share".to_owned()),
        StateDir::new("/home/user/.local/state".to_owned()),
        CacheDir::new("/home/user/.cache".to_owned()),
    )
}

fn home_dirs(disk: Disk) -> Disk {
    disk.with("/home", Node::Dir)
        .with("/home/user", Node::Dir)
        .with("/home/user/.config", Node::Dir)
        .with("/home/user/.local", Node::Dir)
        .with("/home/user/.local/share", Node::Dir)
        .with("/home/user/.local/state", Node::Dir)
        .with("/home/user/.cache", Node::Dir)
}

fn bashrc_spec() -> Spec {
    Spec::new(Some(vec![Shorthand::Name("bashrc".into())]), None, None)
}

fn bashrc_repo() -> Disk {
    home_dirs(Disk::default())
        .with("/home/user/_", Node::Dir)
        .with("/home/user/_/etc", Node::Dir)
        .with("/home/user/_/etc/bashrc", Node::File)
        .with("/home/user/_/etc/nvim", Node::Dir)
        .with("/home/user/_/etc/nvim/init.vim", Node::File)
        .spec("/home/user/_/etc", bashrc_spec)
}

fn link(target: &str, content: &str) -> DotLink {
    DotLink::new(target.to_owned(), content.to_owned())
}

#[test]
fn one_mapped_file_gives_one_pending_link() {
    let disk = bashrc_repo();
    let answers = Answers::new(Ok(false));
    let inferred = Inferred { home: None };
    let app = DotzoApp::new_with_fs(&disk, &disk, &answers, &inferred, &disk, &disk);
    let plan = sync_plan(&app, &environment(), "/home/user/_/etc").unwrap();
    assert_eq!(plan.link_count, 1);
    assert_eq!(plan.reconciliation.pending.links(), &vec![link("/home/user/.bashrc", "_/etc/bashrc")]);
    assert!(plan.reconciliation.confirmed.is_empty());
    assert!(plan.reconciliation.clobber.is_empty());
    assert!(plan.reconciliation.fix.is_empty());
    // The directory without a specification is visited, and its file is noted.
    let paths: Vec<&str> = plan.reports.iter().map(|data| data.path.as_str()).collect();
    assert_eq!(paths, vec!["/home/user/_/etc", "/home/user/_/etc/nvim"]);
    assert!(plan.reports[0].expected_targets.is_empty());
    assert!(plan.reports[0].implicit_ignores.is_empty());
    assert_eq!(
        plan.reports[1].implicit_ignores,
        StringSet::from_vec(vec!["init.vim".to_owned()])
    );
}

#[test]
fn a_repository_without_mappings_gives_nothing() {
    let disk = home_dirs(Disk::default())
        .with("/repo", Node::Dir)
        .with("/repo/README", Node::File)
        .with("/repo/.git", Node::Dir)
        .with("/repo/.git/config", Node::File)
        .with("/repo/sub", Node::Dir)
        .with("/repo/sub/deeper", Node::Dir)
        .with("/repo/sub/deeper/file", Node::File)
        .spec("/repo/sub", || Spec::new(None, None, Some(StringSet::from_vec(vec!["deeper".into()]))));
    let answers = Answers::new(Ok(false));
    let inferred = Inferred { home: None };
    let app = DotzoApp::new_with_fs(&disk, &disk, &answers, &inferred, &disk, &disk);
    let traverser = TreeTraverser::new(&disk, &disk, &disk);
    assert!(traverser.traverse("/repo").unwrap().is_empty());
    let plan = sync_plan(&app, &environment(), "/repo").unwrap();
    assert_eq!(plan.link_count, 0);
    assert_eq!(plan.reconciliation.total(), Some(0));
    assert!(plan.reconciliation.confirmed.is_empty());
    assert!(plan.reconciliation.pending.is_empty());
    assert!(plan.reconciliation.clobber.is_empty());
    assert!(plan.reconciliation.fix.is_empty());
    // Neither the dot directory nor the ignored one was entered.
    let paths: Vec<&str> = plan.reports.iter().map(|data| data.path.as_str()).collect();
    assert_eq!(paths, vec!["/repo", "/repo/sub"]);
}

fn nested_repo() -> Disk {
    home_dirs(Disk::default())
        .with("/repo", Node::Dir)
        .with("/repo/etc", Node::Dir)
        .with("/repo/etc/bashrc", Node::File)
        .with("/repo/etc/editors", Node::Dir)
        .with("/repo/etc/editors/nvim", Node::Dir)
        .with("/repo/etc/editors/nvim/init.vim", Node::File)
        .with("/repo/etc/editors/vimrc", Node::File)
        .with("/repo/etc/editors/notes", Node::File)
        .with("/repo/etc/shells", Node::Link("editors".to_owned()))
        .spec("/repo/etc", || {
            Spec::new(
                Some(vec![Shorthand::Name("bashrc".into()), Shorthand::Name("zshrc".into())]),
                None,
                None,
            )
        })
        .spec("/repo/etc/editors", || {
            Spec::new(
                Some(vec![Shorthand::Mapped(Mapping {
                    source: "vimrc".into(),
                    target: None,
                    dot: None,
                })]),
                Some(vec![Shorthand::Name("nvim".into())]),
                None,
            )
        })
}

#[test]
fn traverse_gathers_the_mappings_of_the_tree() {
    let disk = nested_repo();
    let traverser = TreeTraverser::new(&disk, &disk, &disk);
    let mapping = traverser.traverse("/repo/etc").unwrap();
    assert_eq!(mapping.len(), 3);
    assert_eq!(
        mapping.get("/repo/etc/bashrc"),
        Some(&DotMap::new(
            "/repo/etc/bashrc".to_owned(),
            LocatedTarget::new(Target::new("bashrc".to_owned(), None), Destination::Home)
        ))
    );
    assert_eq!(
        mapping.get("/repo/etc/editors/vimrc"),
        Some(&DotMap::new(
            "/repo/etc/editors/vimrc".to_owned(),
            LocatedTarget::new(Target::new("vimrc".to_owned(), None), Destination::Home)
        ))
    );
    // A mapped directory is linked, not entered.
    assert_eq!(
        mapping.get("/repo/etc/editors/nvim"),
        Some(&DotMap::new(
            "/repo/etc/editors/nvim".to_owned(),
            LocatedTarget::new(Target::new("nvim".to_owned(), None), Destination::Config)
        ))
    );
    assert_eq!(mapping.get("/repo/etc/editors/nvim/init.vim"), None);
}

#[test]
fn walk_notes_what_is_missing_and_what_is_ignored() {
    let disk = nested_repo();
    let traverser = TreeTraverser::new(&disk, &disk, &disk);
    let walked = traverser.walk("/repo/etc").unwrap();
    assert_eq!(walked.reports.len(), 2);
    let root = &walked.reports[0];
    assert_eq!(root.path, "/repo/etc");
    assert_eq!(root.expected_targets, StringSet::from_vec(vec!["zshrc".to_owned()]));
    // The link to a directory is no directory to enter.
    assert_eq!(root.implicit_ignores, StringSet::from_vec(vec!["shells".to_owned()]));
    assert_eq!(
        root.report(),
        vec![
            "The following in \"/repo/etc\" were not mentioned in .dot, and are being ignored implicitly: [shells]".to_owned(),
            "The .dot in \"/repo/etc\" referenced the following, but they were not found: [zshrc]".to_owned(),
        ]
    );
    let editors = &walked.reports[1];
    assert_eq!(editors.path, "/repo/etc/editors");
    assert!(editors.expected_targets.is_empty());
    assert_eq!(editors.implicit_ignores, StringSet::from_vec(vec!["notes".to_owned()]));
    assert_eq!(editors.report().len(), 1);
}

#[test]
fn report_lists_names_in_brackets() {
    let context = SpecContext::new(Spec::new(
        Some(vec![Shorthand::Name("a".into()), Shorthand::Name("b".into())]),
        Some(vec![Shorthand::Name("c".into())]),
        None,
    ));
    let mut data = DirData::new("dir".to_owned(), &context);
    assert_eq!(data.path, "dir");
    assert_eq!(
        data.expected_targets,
        StringSet::from_vec(vec!["a".into(), "b".into(), "c".into()])
    );
    assert!(data.implicit_ignores.is_empty());
    assert_eq!(
        data.report(),
        vec!["The .dot in \"dir\" referenced the following, but they were not found: [a], [b], [c]"
            .to_owned()]
    );
    data.expected_targets = StringSet::new();
    assert_eq!(data.report(), Vec::<String>::new());
    data.implicit_ignores.insert("x".to_owned());
    data.implicit_ignores.insert("y".to_owned());
    assert_eq!(
        data.report(),
        vec!["The following in \"dir\" were not mentioned in .dot, and are being ignored implicitly: [x], [y]"
            .to_owned()]
    );
}

#[test]
fn consume_threads_mapping_notes_and_stack() {
    let context = SpecContext::new(bashrc_spec());
    let mut mapping = dotzo::collections::StringMap::new();
    let mut data = DirData::new("/r".to_owned(), &context);
    let target = LocatedTarget::new(Target::new("bashrc".to_owned(), None), Destination::Home);

    let mapped = RepoDirItemWithPath::new(
        "/r/bashrc".to_owned(),
        RepoDirItem::Mapping("bashrc".to_owned(), target.clone()),
    );
    assert_eq!(consume(&mut mapping, &mut data, mapped), None);
    assert_eq!(mapping.get("/r/bashrc"), Some(&DotMap::new("/r/bashrc".to_owned(), target.clone())));
    assert!(data.expected_targets.is_empty());

    let subdir = RepoDirItemWithPath::new("/r/sub".to_owned(), RepoDirItem::SubDir);
    assert_eq!(consume(&mut mapping, &mut data, subdir), Some("/r/sub".to_owned()));

    for (kind, noted) in
        [(IgnoreType::Dot, false), (IgnoreType::Explicit, false), (IgnoreType::Implicit, true)]
    {
        let mut data = DirData::new("/r".to_owned(), &context);
        let ignored = RepoDirItemWithPath::new(
            "/r/thing".to_owned(),
            RepoDirItem::Ignore(kind, "thing".to_owned()),
        );
        assert_eq!(consume(&mut mapping, &mut data, ignored), None);
        assert_eq!(data.implicit_ignores.contains("thing"), noted);
        assert_eq!(data.expected_targets.len(), 1);
    }
    assert_eq!(mapping.len(), 1);

    let mut stack = vec!["/before".to_owned()];
    let mut data = DirData::new("/r".to_owned(), &context);
    consume_all(
        &mut mapping,
        &mut data,
        &mut stack,
        vec![
            RepoDirItemWithPath::new("/r/one".to_owned(), RepoDirItem::SubDir),
            RepoDirItemWithPath::new(
                "/r/again".to_owned(),
                RepoDirItem::Mapping("bashrc".to_owned(), target.clone()),
            ),
            RepoDirItemWithPath::new("/r/two".to_owned(), RepoDirItem::SubDir),
        ],
    );
    assert_eq!(stack, vec!["/before".to_owned(), "/r/one".to_owned(), "/r/two".to_owned()]);
    assert_eq!(mapping.len(), 2);
    assert!(data.expected_targets.is_empty());
}

#[test]
fn walk_hands_on_failures() {
    let disk = nested_repo();
    let traverser = TreeTraverser::new(&disk, &disk, &disk);
    assert_eq!(
        traverser.traverse("/nowhere").unwrap_err(),
        TreeTraverserError::DirVisitor(RepoDirVisitorError::Io(IoError::new(
            IoErrorKind::NotFound,
            "/nowhere".to_owned()
        )))
    );
    let mut disk = nested_repo();
    disk.broken_specs.push("/repo/etc/editors".to_owned());
    let traverser = TreeTraverser::new(&disk, &disk, &disk);
    assert_eq!(
        traverser.traverse("/repo/etc").unwrap_err(),
        TreeTraverserError::ConfigFile(ConfigFileReadError::YamlParsing(
            "/repo/etc/editors".to_owned()
        ))
    );
}

fn cli(command: Command) -> Cli {
    Cli { command, home_dir: None, config_dir: None, repo: None, config: None, dry_run: false }
}

#[test]
fn sync_creates_pending_links_after_a_yes() {
    let disk = bashrc_repo();
    let answers = Answers::new(Ok(true));
    let inferred = Inferred { home: None };
    let app = DotzoApp::new_with_fs(&disk, &disk, &answers, &inferred, &disk, &disk);
    let dotzo = Dotzo::new(environment(), Repo::new("/home/user/_".to_owned()));
    let report = sync_task(&app, &cli(Command::Sync), dotzo).unwrap();
    assert_eq!(
        (report.link_count, report.confirmed, report.pending, report.asked, report.created),
        (1, 0, 1, true, 1)
    );
    assert_eq!(report.agreed, Some(true));
    assert_eq!(answers.asked.borrow().as_slice(), ["Create 1 new links?".to_owned()]);
    assert_eq!(disk.node("/home/user/.bashrc"), Some(Node::Link("_/etc/bashrc".to_owned())));

    // A second run finds everything in place and asks nothing.
    let dotzo = Dotzo::new(environment(), Repo::new("/home/user/_".to_owned()));
    let report = sync_task(&app, &cli(Command::Sync), dotzo).unwrap();
    assert_eq!(
        (report.link_count, report.confirmed, report.pending, report.asked, report.created),
        (1, 1, 0, false, 0)
    );
    assert_eq!(report.agreed, None);
    assert_eq!(answers.asked.borrow().len(), 1);
}

#[test]
fn sync_creates_nothing_after_a_no() {
    let disk = bashrc_repo();
    let answers = Answers::new(Ok(false));
    let inferred = Inferred { home: None };
    let app = DotzoApp::new_with_fs(&disk, &disk, &answers, &inferred, &disk, &disk);
    let dotzo = Dotzo::new(environment(), Repo::new("/home/user/_".to_owned()));
    let report = sync_task(&app, &cli(Command::Sync), dotzo).unwrap();
    assert_eq!(
        (report.link_count, report.confirmed, report.pending, report.asked, report.created),
        (1, 0, 1, true, 0)
    );
    assert_eq!(report.agreed, Some(false));
    assert_eq!(disk.node("/home/user/.bashrc"), None);
}

#[test]
fn sync_reports_a_clobber_without_asking() {
    let disk = bashrc_repo().with("/home/user/.bashrc", Node::File);
    let answers = Answers::new(Ok(true));
    let inferred = Inferred { home: None };
    let app = DotzoApp::new_with_fs(&disk, &disk, &answers, &inferred, &disk, &disk);
    let dotzo = Dotzo::new(environment(), Repo::new("/home/user/_".to_owned()));
    let report = sync_task(&app, &cli(Command::Sync), dotzo).unwrap();
    assert_eq!(
        (report.link_count, report.confirmed, report.pending, report.asked, report.created),
        (1, 0, 0, false, 0)
    );
    assert_eq!(report.agreed, None);
    assert!(answers.asked.borrow().is_empty());
    assert_eq!(disk.node("/home/user/.bashrc"), Some(Node::File));
}

#[test]
fn sync_hands_on_failures() {
    let inferred = Inferred { home: None };

    let disk = bashrc_repo();
    let answers = Answers::new(Err("no terminal"));
    let app = DotzoApp::new_with_fs(&disk, &disk, &answers, &inferred, &disk, &disk);
    let dotzo = Dotzo::new(environment(), Repo::new("/home/user/_".to_owned()));
    assert!(matches!(
        sync_task(&app, &cli(Command::Sync), dotzo),
        Err(SyncTaskError::Prompt(PrompterError::General(message))) if message == "no terminal"
    ));

    let mut disk = bashrc_repo();
    disk.read_only = true;
    let answers = Answers::new(Ok(true));
    let app = DotzoApp::new_with_fs(&disk, &disk, &answers, &inferred, &disk, &disk);
    let dotzo = Dotzo::new(environment(), Repo::new("/home/user/_".to_owned()));
    assert!(matches!(
        sync_task(&app, &cli(Command::Sync), dotzo),
        Err(SyncTaskError::LinkCreation(LinkCreatorError::Action(Error::Io(e))))
            if e.kind == IoErrorKind::PermissionDenied
    ));

    let disk = bashrc_repo();
    let app = DotzoApp::new_with_fs(&disk, &disk, &answers, &inferred, &disk, &disk);
    let dotzo = Dotzo::new(environment(), Repo::new("/home/user/gone".to_owned()));
    assert!(matches!(
        sync_task(&app, &cli(Command::Sync), dotzo),
        Err(SyncTaskError::Traversal(TreeTraverserError::DirVisitor(RepoDirVisitorError::Io(_))))
    ));

    let disk = bashrc_repo().with("/elsewhere", Node::Dir);
    let app = DotzoApp::new_with_fs(&disk, &disk, &answers, &inferred, &disk, &disk);
    let mut outside = environment();
    outside.state = StateDir::new("/elsewhere".to_owned());
    let dotzo = Dotzo::new(outside, Repo::new("/home/user/_".to_owned()));
    assert!(matches!(
        sync_task(&app, &cli(Command::Sync), dotzo),
        Err(SyncTaskError::Structure(StructureCheckError::Containment { label: "state", path, .. }))
            if path == "/elsewhere"
    ));
}

#[test]
fn sync_hands_on_a_failed_reconciliation() {
    let inferred = Inferred { home: Some("/home/user") };
    let answers = Answers::new(Ok(true));
    let mut disk = bashrc_repo();
    disk.rc = Some(Rc::default);
    disk.unreadable.push("/home/user/_/etc/bashrc".to_owned());
    let app = DotzoApp::new_with_fs(&disk, &disk, &answers, &inferred, &disk, &disk);
    let dotzo = Dotzo::new(environment(), Repo::new("/home/user/_".to_owned()));
    assert!(matches!(
        sync_task(&app, &cli(Command::Sync), dotzo),
        Err(SyncTaskError::Reconciliation(DotReconciliationError::Linker(DotLinkerError::Io(e))))
            if e.kind == IoErrorKind::PermissionDenied && e.message == "/home/user/_/etc/bashrc"
    ));
    assert!(matches!(
        sync_plan(&app, &environment(), "/home/user/_/etc"),
        Err(SyncTaskError::Reconciliation(_))
    ));
    assert!(matches!(
        run(&app, &cli(Command::Sync)),
        Err(RunTaskError::Sync(SyncTaskError::Reconciliation(_)))
    ));
    assert!(answers.asked.borrow().is_empty());
}

#[test]
fn link_creator_hands_on_a_link_that_cannot_be_read() {
    let mut disk = bashrc_repo().with("/home/user/.locked", Node::Link("somewhere".to_owned()));
    disk.unreadable.push("/home/user/.locked".to_owned());
    let creator = LinkCreator::new(&disk, &disk, &disk);
    assert_eq!(
        creator.create(&link("/home/user/.locked", "_/etc/locked")),
        Err(LinkCreatorError::Io(IoError::new(
            IoErrorKind::PermissionDenied,
            "/home/user/.locked".to_owned()
        )))
    );
}

#[test]
fn questions_are_asked_only_where_links_are_pending() {
    assert!(needs_question(0, 1, 1));
    assert!(needs_question(3, 2, 6));
    assert!(!needs_question(3, 0, 6));
    assert!(!needs_question(6, 0, 6));
    assert!(!needs_question(0, 0, 0));
    assert_eq!(question(12), "Create 12 new links?");
    assert_eq!(question(0), "Create 0 new links?");
}

#[test]
fn numbers_are_written_in_decimal() {
    assert_eq!(decimal(0), "0");
    assert_eq!(decimal(9), "9");
    assert_eq!(decimal(10), "10");
    assert_eq!(decimal(1234567890), "1234567890");
    assert_eq!(decimal(usize::MAX), usize::MAX.to_string());
}

#[test]
fn dry_actions_change_nothing() {
    let disk = bashrc_repo();
    let dry = DryActions::new(&disk);
    assert_eq!(dry.make_dir("/home/user/new"), Ok(()));
    assert_eq!(disk.node("/home/user/new"), None);
    assert_eq!(dry.symlink("/home/user/.bashrc", "_/etc/bashrc"), Ok(()));
    assert_eq!(disk.node("/home/user/.bashrc"), None);
    assert!(matches!(
        dry.symlink("/home/user/.config", "_/etc/config"),
        Err(Error::Io(e)) if e.kind == IoErrorKind::AlreadyExists && e.message == "Target already exists"
    ));
    assert_eq!(DryActions::<Disk>::rehearse_link(false), Ok(()));
    assert!(DryActions::<Disk>::rehearse_link(true).is_err());
    assert!(Error::from_io_kind(IoErrorKind::AlreadyExists).is_already_exists());
    assert!(!Error::from_io_kind(IoErrorKind::NotFound).is_already_exists());
    assert_eq!(
        Error::from_io_kind(IoErrorKind::TooManyLinks),
        Error::Io(IoError::new(IoErrorKind::TooManyLinks, String::new()))
    );
}

#[test]
fn link_creator_settles_collisions() {
    let disk = bashrc_repo()
        .with("/home/user/.same", Node::Link("_/etc/same".to_owned()))
        .with("/home/user/.slashes", Node::Link("_//etc/slashes/".to_owned()))
        .with("/home/user/.other", Node::Link("_/etc/elsewhere".to_owned()))
        .with("/home/user/.file", Node::File);
    let creator = LinkCreator::new(&disk, &disk, &disk);
    assert_eq!(creator.create(&link("/home/user/.new", "_/etc/new")), Ok(true));
    assert_eq!(disk.node("/home/user/.new"), Some(Node::Link("_/etc/new".to_owned())));
    assert_eq!(creator.create(&link("/home/user/.same", "_/etc/same")), Ok(false));
    assert_eq!(creator.create(&link("/home/user/.slashes", "_/etc/slashes")), Ok(false));
    for target in ["/home/user/.other", "/home/user/.file"] {
        assert_eq!(
            creator.create(&link(target, "_/etc/wanted")),
            Err(LinkCreatorError::Action(Error::from_io_kind(IoErrorKind::AlreadyExists)))
        );
    }
    type Creator = LinkCreator<'static, Disk, Disk, Disk>;
    assert_eq!(Creator::settle(Some("a/b".to_owned()), "a/b"), Ok(false));
    assert_eq!(
        Creator::settle(Some("a/b".to_owned()), "a/c"),
        Err(LinkCreatorError::Action(Error::from_io_kind(IoErrorKind::AlreadyExists)))
    );
    assert_eq!(
        Creator::settle(None, "a/b"),
        Err(LinkCreatorError::Action(Error::from_io_kind(IoErrorKind::AlreadyExists)))
    );
}

#[test]
fn link_creator_hands_on_other_failures() {
    let mut disk = bashrc_repo();
    disk.read_only = true;
    let creator = LinkCreator::new(&disk, &disk, &disk);
    assert_eq!(
        creator.create(&link("/home/user/.new", "_/etc/new")),
        Err(LinkCreatorError::Action(Error::from_io_kind(IoErrorKind::PermissionDenied)))
    );
}

#[test]
fn directory_creator_asks_unless_told_not_to() {
    let disk = bashrc_repo();
    let yes = Answers::new(Ok(true));
    let creator = DirectoryCreator::new(&disk, &yes);
    assert_eq!(creator.create(&DataDir::new("/home/user/data".to_owned()), false), Ok(()));
    assert_eq!(yes.asked.borrow().as_slice(), ["Create data directory at /home/user/data".to_owned()]);
    assert_eq!(disk.node("/home/user/data"), Some(Node::Dir));
    assert_eq!(creator.create(&CacheDir::new("/home/user/c".to_owned()), true), Ok(()));
    assert_eq!(yes.asked.borrow().len(), 1);

    let no = Answers::new(Ok(false));
    let creator = DirectoryCreator::new(&disk, &no);
    assert_eq!(
        creator.create(&StateDir::new("/home/user/s".to_owned()), false),
        Err(DirectoryCreatorError::DeclinedToCreate)
    );
    assert_eq!(disk.node("/home/user/s"), None);
    assert_eq!(creator.create(&StateDir::new("/home/user/s".to_owned()), true), Ok(()));

    let broken = Answers::new(Err("closed"));
    let creator = DirectoryCreator::new(&disk, &broken);
    assert_eq!(
        creator.create(&ConfigDir::new("/home/user/x".to_owned()), false),
        Err(DirectoryCreatorError::Prompt(PrompterError::General("closed".to_owned())))
    );

    let mut disk = bashrc_repo();
    disk.read_only = true;
    let creator = DirectoryCreator::new(&disk, &yes);
    assert_eq!(
        creator.create(&ConfigDir::new("/home/user/x".to_owned()), true),
        Err(DirectoryCreatorError::Action(Error::from_io_kind(IoErrorKind::PermissionDenied)))
    );
    assert_eq!(
        DirectoryCreator::<Disk, Answers>::question("cache", "/tmp/c"),
        "Create cache directory at /tmp/c"
    );
}

#[test]
fn home_check_names_the_home_directory() {
    let disk = bashrc_repo().with("/home/file", Node::File);
    let check = HomeCheck::new(DirectoryCheck::new(&disk));
    assert_eq!(check.check(&Home::new("/home/user".to_owned())), Ok(()));
    assert_eq!(
        check.check(&Home::new("/home/file".to_owned())),
        Err(HomeCheckError::Check {
            path: "/home/file".to_owned(),
            error: DirectoryCheckError::IsNotADirectory
        })
    );
    assert_eq!(
        check.check(&Home::new("/home/nobody".to_owned())),
        Err(HomeCheckError::Check {
            path: "/home/nobody".to_owned(),
            error: DirectoryCheckError::DoesNotExist
        })
    );
}

#[test]
fn layout_check_has_missing_directories_made() {
    let fresh = || {
        Disk::default().with("/home", Node::Dir).with("/home/user", Node::Dir).with(
            "/home/user/.config",
            Node::Dir,
        )
    };
    let layout = |disk: &'static Disk, answers: &'static Answers, yes, create| {
        LayoutCheck::new(DirectoryCheck::new(disk), DirectoryCreator::new(disk, answers), yes, create)
    };
    let leak = |disk: Disk| -> &'static Disk { Box::leak(Box::new(disk)) };
    let no: &'static Answers = Box::leak(Box::new(Answers::new(Ok(false))));
    let yes: &'static Answers = Box::leak(Box::new(Answers::new(Ok(true))));

    let disk = leak(fresh());
    assert_eq!(
        layout(disk, no, false, false).check(&environment()),
        Err(LayoutCheckError::Check {
            label: "data",
            path: "/home/user/.local/share".to_owned(),
            error: DirectoryCheckError::DoesNotExist
        })
    );
    assert!(no.asked.borrow().is_empty());

    assert_eq!(
        layout(disk, no, false, true).check(&environment()),
        Err(LayoutCheckError::Creation {
            label: "data",
            path: "/home/user/.local/share".to_owned(),
            error: DirectoryCreatorError::DeclinedToCreate
        })
    );

    assert_eq!(layout(disk, yes, false, true).check(&environment()), Ok(()));
    assert_eq!(yes.asked.borrow().len(), 3);
    assert_eq!(disk.node("/home/user/.cache"), Some(Node::Dir));

    let disk = leak(fresh());
    assert_eq!(layout(disk, no, true, true).check(&environment()), Ok(()));
    assert_eq!(disk.node("/home/user/.local/state"), Some(Node::Dir));

    let disk = leak(fresh().with("/home/user/.cache", Node::File));
    assert_eq!(
        layout(disk, yes, true, true).check(&environment()),
        Err(LayoutCheckError::Check {
            label: "cache",
            path: "/home/user/.cache".to_owned(),
            error: DirectoryCheckError::IsNotADirectory
        })
    );
    type Layout = LayoutCheck<'static, Disk, Disk, Answers>;
    assert!(Layout::wants_creation(&Err(DirectoryCheckError::DoesNotExist), true));
    assert!(!Layout::wants_creation(&Err(DirectoryCheckError::DoesNotExist), false));
    assert!(!Layout::wants_creation(&Err(DirectoryCheckError::IsNotADirectory), true));
    assert!(!Layout::wants_creation(&Ok(()), true));
}

#[test]
fn repo_structure_needs_an_etc() {
    let disk = bashrc_repo().with("/bare", Node::Dir).with("/flat", Node::Dir).with("/flat/etc", Node::File);
    let check = RepoStructureCheck::new(DirectoryCheck::new(&disk), DirectoryCheck::new(&disk));
    assert_eq!(check.check(&Repo::new("/home/user/_".to_owned())), Ok(()));
    assert_eq!(
        check.check(&Repo::new("/gone".to_owned())),
        Err(RepoStructureError::Missing(DirectoryCheckError::DoesNotExist))
    );
    assert_eq!(
        check.check(&Repo::new("/bare".to_owned())),
        Err(RepoStructureError::Etc(DirectoryCheckError::DoesNotExist))
    );
    assert_eq!(
        check.check(&Repo::new("/flat".to_owned())),
        Err(RepoStructureError::Etc(DirectoryCheckError::IsNotADirectory))
    );
}

#[test]
fn app_builds_its_checks() {
    let disk = bashrc_repo();
    let answers = Answers::new(Ok(false));
    let inferred = Inferred { home: None };
    let app = DotzoApp::new_with_fs(&disk, &disk, &answers, &inferred, &disk, &disk);
    assert_eq!(app.home_check().check(&Home::new("/home/user".to_owned())), Ok(()));
    assert_eq!(app.structure_check().check(&environment()), Ok(()));
    assert_eq!(app.layout_check(false, false).check(&environment()), Ok(()));
    assert_eq!(app.repo_structure_check().check(&Repo::new("/home/user/_".to_owned())), Ok(()));
    assert!(app.metadata_checks().is_dir("/home/user"));
}

#[test]
fn init_makes_out_environment_and_repository() {
    let mut disk = bashrc_repo();
    disk.rc = Some(Rc::default);
    let answers = Answers::new(Ok(false));
    let inferred = Inferred { home: Some("/home/user") };
    let app = DotzoApp::new_with_fs(&disk, &disk, &answers, &inferred, &disk, &disk);
    let dotzo = init_task(&app, &cli(Command::Sync)).unwrap();
    assert_eq!(dotzo, Dotzo::new(environment(), Repo::new("/home/user/_".to_owned())));

    let mut options = cli(Command::Sync);
    options.config = Some("/srv/dots".to_owned());
    options.config_dir = Some("/home/user/.config".to_owned());
    options.home_dir = Some("/home/user".to_owned());
    let dotzo = init_task(&app, &options).unwrap();
    assert_eq!(dotzo.repo.path, "/srv/dots");
    assert_eq!(dotzo.environment.home.as_path(), "/home/user");
}

#[test]
fn init_hands_on_failures() {
    let answers = Answers::new(Ok(false));
    let mut disk = bashrc_repo();
    disk.rc = Some(|| Rc::new(RcRepo::new("dots".to_owned(), None)));

    let nowhere = Inferred { home: None };
    let app = DotzoApp::new_with_fs(&disk, &disk, &answers, &nowhere, &disk, &disk);
    assert_eq!(
        init_task(&app, &cli(Command::Info)),
        Err(InitTaskError::EnvironmentInference(EnvironmentInferenceError::CannotInferHome))
    );

    let mut options = cli(Command::Info);
    options.home_dir = Some("/home/nobody".to_owned());
    assert_eq!(
        init_task(&app, &options),
        Err(InitTaskError::Home(HomeCheckError::Check {
            path: "/home/nobody".to_owned(),
            error: DirectoryCheckError::DoesNotExist
        }))
    );

    options.home_dir = Some("/home".to_owned());
    assert_eq!(
        init_task(&app, &options),
        Err(InitTaskError::Layout(LayoutCheckError::Creation {
            label: "config",
            path: "/home/.config".to_owned(),
            error: DirectoryCreatorError::DeclinedToCreate
        }))
    );

    let without_rc = bashrc_repo();
    let inferred = Inferred { home: Some("/home/user") };
    let app = DotzoApp::new_with_fs(&without_rc, &without_rc, &answers, &inferred, &without_rc, &without_rc);
    assert_eq!(
        init_task(&app, &cli(Command::Info)),
        Err(InitTaskError::EnvironmentInference(EnvironmentInferenceError::RcNotFound))
    );
}

#[test]
fn run_does_what_the_command_asks() {
    let mut disk = bashrc_repo();
    disk.rc = Some(Rc::default);
    let answers = Answers::new(Ok(true));
    let inferred = Inferred { home: Some("/home/user") };
    let app = DotzoApp::new_with_fs(&disk, &disk, &answers, &inferred, &disk, &disk);

    let shown = run(&app, &cli(Command::Info)).unwrap();
    let expected = "home: /home/user\nconfig: /home/user/.config\ndata: /home/user/.local/share\nstate: /home/user/.local/state\ncache: /home/user/.cache\n";
    assert!(matches!(shown, RunOutcome::Shown(text) if text == expected));
    assert_eq!(info_task(environment()).unwrap(), expected);

    let synced = run(&app, &cli(Command::Sync)).unwrap();
    assert!(matches!(synced, RunOutcome::Synced(report) if report.created == 1 && report.link_count == 1));

    let nowhere = Inferred { home: None };
    let app = DotzoApp::new_with_fs(&disk, &disk, &answers, &nowhere, &disk, &disk);
    assert!(matches!(
        run(&app, &cli(Command::Sync)),
        Err(RunTaskError::Init(InitTaskError::EnvironmentInference(
            EnvironmentInferenceError::CannotInferHome
        )))
    ));
}

#[test]
fn pending_links_are_created_only_on_a_yes() {
    let pending = vec![
        link("/home/user/.one", "_/etc/one"),
        link("/home/user/.bashrc", "_/etc/bashrc"),
        link("/home/user/.two", "_/etc/two"),
    ];
    let disk = bashrc_repo().with("/home/user/.bashrc", Node::Link("_/etc/bashrc".to_owned()));
    let creator = LinkCreator::new(&disk, &disk, &disk);
    assert_eq!(create_pending(&creator, &pending, false), Ok(0));
    assert_eq!(disk.node("/home/user/.one"), None);
    assert_eq!(disk.node("/home/user/.two"), None);
    // The link that is there already counts as done, not as created.
    assert_eq!(create_pending(&creator, &pending, true), Ok(2));
    assert_eq!(disk.node("/home/user/.one"), Some(Node::Link("_/etc/one".to_owned())));
    assert_eq!(disk.node("/home/user/.two"), Some(Node::Link("_/etc/two".to_owned())));
    assert_eq!(create_pending(&creator, &pending, true), Ok(0));
    assert_eq!(create_pending(&creator, &Vec::new(), true), Ok(0));

    // The first link that cannot be created ends the task.
    let disk = bashrc_repo().with("/home/user/.one", Node::File);
    let creator = LinkCreator::new(&disk, &disk, &disk);
    assert_eq!(
        create_pending(&creator, &pending, true),
        Err(LinkCreatorError::Action(Error::from_io_kind(IoErrorKind::AlreadyExists)))
    );
    assert_eq!(disk.node("/home/user/.bashrc"), None);
    assert_eq!(create_pending(&creator, &pending, false), Ok(0));
}

#[test]
fn the_attempt_settles_all_but_collisions() {
    type Creator = LinkCreator<'static, Disk, Disk, Disk>;
    assert_eq!(Creator::attempted(Ok(())), Some(Ok(true)));
    assert_eq!(Creator::attempted(Err(Error::from_io_kind(IoErrorKind::AlreadyExists))), None);
    assert_eq!(
        Creator::attempted(Err(Error::Io(IoError::new(
            IoErrorKind::AlreadyExists,
            "File exists".to_owned()
        )))),
        None
    );
    assert_eq!(
        Creator::attempted(Err(Error::from_io_kind(IoErrorKind::PermissionDenied))),
        Some(Err(LinkCreatorError::Action(Error::from_io_kind(IoErrorKind::PermissionDenied))))
    );
}

#[test]
fn a_directory_is_made_only_where_agreed() {
    type Creator = DirectoryCreator<'static, Disk, Answers>;
    assert_eq!(Creator::agreed_by(Ok(true)), Ok(true));
    assert_eq!(Creator::agreed_by(Ok(false)), Ok(false));
    assert_eq!(
        Creator::agreed_by(Err(PrompterError::General("closed".to_owned()))),
        Err(DirectoryCreatorError::Prompt(PrompterError::General("closed".to_owned())))
    );

    let disk = bashrc_repo();
    let answers = Answers::new(Ok(true));
    let creator = DirectoryCreator::new(&disk, &answers);
    let dir = DataDir::new("/home/user/data".to_owned());
    assert_eq!(creator.create_agreed(&dir, false), Err(DirectoryCreatorError::DeclinedToCreate));
    assert_eq!(disk.node("/home/user/data"), None);
    assert_eq!(creator.create_agreed(&dir, true), Ok(()));
    assert_eq!(disk.node("/home/user/data"), Some(Node::Dir));
    assert!(answers.asked.borrow().is_empty());

    let mut locked = bashrc_repo();
    locked.read_only = true;
    let creator = DirectoryCreator::new(&locked, &answers);
    assert_eq!(
        creator.create_agreed(&dir, true),
        Err(DirectoryCreatorError::Action(Error::from_io_kind(IoErrorKind::PermissionDenied)))
    );
    assert_eq!(creator.create_agreed(&dir, false), Err(DirectoryCreatorError::DeclinedToCreate));
}

#[test]
fn layout_outcomes_name_the_directory() {
    type Layout = LayoutCheck<'static, Disk, Disk, Answers>;
    assert_eq!(Layout::checked_outcome(Ok(()), "data", "/d"), Ok(()));
    assert_eq!(
        Layout::checked_outcome(Err(DirectoryCheckError::IsNotADirectory), "data", "/d"),
        Err(LayoutCheckError::Check {
            label: "data",
            path: "/d".to_owned(),
            error: DirectoryCheckError::IsNotADirectory
        })
    );
    assert_eq!(Layout::made_outcome(Ok(()), "cache", "/c"), Ok(()));
    assert_eq!(
        Layout::made_outcome(Err(DirectoryCreatorError::DeclinedToCreate), "cache", "/c"),
        Err(LayoutCheckError::Creation {
            label: "cache",
            path: "/c".to_owned(),
            error: DirectoryCreatorError::DeclinedToCreate
        })
    );
}
