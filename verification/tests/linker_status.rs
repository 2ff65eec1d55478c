use std::collections::BTreeMap;

use dotzo::config::rc::Rc;
use dotzo::environment::inference::{DirInference, EnvironmentInference};
use dotzo::environment::types::{CacheDir, ConfigDir, DataDir, Environment, Home, StateDir};
use dotzo::fs::{IoError, IoErrorKind, LinkReader, MetadataChecks};
use dotzo::linker::link::{DotLinker, DotLinkerError, Found};
use dotzo::linker::reconciliation::{DotReconciliation, DotReconciliationError};
use dotzo::linker::types::{DotLink, DotLinkSet, DotStatus};
use dotzo::mapping::{Destination, DotMap, LocatedTarget, Target};
use dotzo::paths::{is_absolute, join};
use relative_path::PathExt;

#[derive(Debug, Clone, PartialEq, Eq)]
enum Node {
    File,
    Dir,
    Link(String),
    /// A link whose referent is missing: asked whether it exists, a file
    /// system that follows links says no.
    Dangling(String),
    Unreadable,
}

#[derive(Debug, Default)]
struct Disk {
    nodes: BTreeMap<String, Node>,
    real: BTreeMap<String, String>,
}

impl Disk {
    fn with(mut self, path: &str, node: Node) -> Self {
        self.nodes.insert(path.to_owned(), node);
        self
    }

    fn real_path(mut self, path: &str, real: &str) -> Self {
        self.real.insert(path.to_owned(), real.to_owned());
        self
    }
}

impl MetadataChecks for Disk {
    fn is_dir(&self, path: &str) -> bool {
        matches!(self.nodes.get(path), Some(Node::Dir))
    }

    fn is_file(&self, path: &str) -> bool {
        matches!(self.nodes.get(path), Some(Node::File))
    }

    fn is_symlink(&self, path: &str) -> bool {
        matches!(
            self.nodes.get(path),
            Some(Node::Link(_)) | Some(Node::Dangling(_)) | Some(Node::Unreadable)
        )
    }

    fn path_exists(&self, path: &str) -> bool {
        match self.nodes.get(path) {
            Some(Node::Dangling(_)) | None => false,
            Some(_) => true,
        }
    }
}

impl LinkReader for Disk {
    fn read_link(&self, path: &str) -> Result<String, IoError> {
        match self.nodes.get(path) {
            Some(Node::Link(content)) | Some(Node::Dangling(content)) => Ok(content.clone()),
            Some(Node::Unreadable) => {
                Err(IoError::new(IoErrorKind::PermissionDenied, path.to_owned()))
            }
            _ => Err(IoError::from_kind(IoErrorKind::NotFound)),
        }
    }

    fn canonicalize(&self, path: &str) -> Result<String, IoError> {
        if let Some(real) = self.real.get(path) {
            return Ok(real.clone());
        }
        if self.nodes.contains_key(path) {
            Ok(path.to_owned())
        } else {
            Err(IoError::new(IoErrorKind::NotFound, path.to_owned()))
        }
    }
}

struct Fixed;

impl DirInference<Home> for Fixed {
    fn infer(&self) -> Option<String> {
        None
    }
}

impl DirInference<ConfigDir> for Fixed {
    fn infer(&self) -> Option<String> {
        None
    }
}

impl DirInference<DataDir> for Fixed {
    fn infer(&self) -> Option<String> {
        None
    }
}

impl DirInference<StateDir> for Fixed {
    fn infer(&self) -> Option<String> {
        None
    }
}

impl DirInference<CacheDir> for Fixed {
    fn infer(&self) -> Option<String> {
        None
    }
}

fn environment() -> Environment {
    Fixed.create(Home::new("/home/user".to_owned()), &Rc::default(), None).unwrap()
}

fn link(target: &str, content: &str) -> DotLink {
    DotLink::new(target.to_owned(), content.to_owned())
}

fn map(source: &str, name: &str, dot: Option<bool>, destination: Destination) -> DotMap {
    DotMap::new(
        source.to_owned(),
        LocatedTarget::new(Target::new(name.to_owned(), dot), destination),
    )
}

#[test]
fn an_absent_target_is_pending() {
    let disk = Disk::default();
    let linker = DotLinker::new(&disk, &disk);
    let status = linker.check(&link("/home/user/.bashrc", "../dotfiles/x")).unwrap();
    assert_eq!(status, DotStatus::Pending);
    assert_eq!(DotStatus::of(Found::Nothing, "../dotfiles/x").unwrap(), DotStatus::Pending);
}

#[test]
fn a_plain_file_at_the_target_is_a_clobber() {
    let disk = Disk::default().with("/home/user/.bashrc", Node::File);
    let linker = DotLinker::new(&disk, &disk);
    let status = linker.check(&link("/home/user/.bashrc", "../dotfiles/x")).unwrap();
    assert_eq!(status, DotStatus::Clobber);
    let disk = Disk::default().with("/home/user/.config", Node::Dir);
    let linker = DotLinker::new(&disk, &disk);
    let status = linker.check(&link("/home/user/.config", "../dotfiles/x")).unwrap();
    assert_eq!(status, DotStatus::Clobber);
    assert_eq!(DotStatus::of(Found::NotALink, "../dotfiles/x").unwrap(), DotStatus::Clobber);
}

#[test]
fn a_link_with_the_planned_content_is_confirmed() {
    let disk = Disk::default().with("/home/user/.bashrc", Node::Link("../dotfiles/x".to_owned()));
    let linker = DotLinker::new(&disk, &disk);
    let status = linker.check(&link("/home/user/.bashrc", "../dotfiles/x")).unwrap();
    assert_eq!(status, DotStatus::Confirmed);
}

#[test]
fn link_content_is_normalized_before_it_is_compared() {
    let disk = Disk::default()
        .with("/home/user/.bashrc", Node::Link(".././dotfiles/sub/../x".to_owned()));
    let linker = DotLinker::new(&disk, &disk);
    let status = linker.check(&link("/home/user/.bashrc", "../dotfiles/x")).unwrap();
    assert_eq!(status, DotStatus::Confirmed);
    assert_eq!(
        DotStatus::of(Found::Link("./a/b/../c".to_owned()), "a/c").unwrap(),
        DotStatus::Confirmed
    );
}

#[test]
fn a_link_that_leads_elsewhere_is_wrong() {
    let disk =
        Disk::default().with("/home/user/.bashrc", Node::Link("../../elsewhere".to_owned()));
    let linker = DotLinker::new(&disk, &disk);
    let status = linker.check(&link("/home/user/.bashrc", "../dotfiles/x")).unwrap();
    assert_eq!(status, DotStatus::WrongLink("../../elsewhere".to_owned()));
}

#[test]
fn a_wrong_link_is_reported_in_normal_form() {
    assert_eq!(
        DotStatus::of(Found::Link("a/./b/../c".to_owned()), "a/b").unwrap(),
        DotStatus::WrongLink("a/c".to_owned())
    );
}

#[test]
fn an_absolute_link_is_reported_as_such() {
    let disk = Disk::default().with("/home/user/.bashrc", Node::Link("/abs/other".to_owned()));
    let linker = DotLinker::new(&disk, &disk);
    let status = linker.check(&link("/home/user/.bashrc", "../dotfiles/x")).unwrap();
    assert_eq!(status, DotStatus::AbsoluteLink("/abs/other".to_owned()));
    // Whether it leads to the right file is not looked at.
    assert_eq!(
        DotStatus::of(Found::Link("/a/../b".to_owned()), "/a/../b").unwrap(),
        DotStatus::AbsoluteLink("/a/../b".to_owned())
    );
}

#[test]
fn status_of_a_relative_link() {
    assert_eq!(DotStatus::of_relative("a/b".to_owned(), true), DotStatus::Confirmed);
    assert_eq!(
        DotStatus::of_relative("a/b".to_owned(), false),
        DotStatus::WrongLink("a/b".to_owned())
    );
}

#[test]
fn check_hands_on_a_failure_to_read_the_link() {
    let disk = Disk::default().with("/home/user/.bashrc", Node::Unreadable);
    let linker = DotLinker::new(&disk, &disk);
    let status = linker.check(&link("/home/user/.bashrc", "../dotfiles/x"));
    assert!(matches!(
        status,
        Err(DotLinkerError::Io(e)) if e.kind == IoErrorKind::PermissionDenied
    ));
}

#[test]
fn plan_puts_the_link_under_the_destination() {
    let env = environment();
    let target = LocatedTarget::new(Target::new("bashrc".to_owned(), None), Destination::Home);
    let planned = DotLink::plan(&env, &target, "/home/user/dotfiles/etc/bashrc").unwrap();
    assert_eq!(planned, link("/home/user/.bashrc", "dotfiles/etc/bashrc"));

    let target = LocatedTarget::new(Target::new("nvim".to_owned(), None), Destination::Config);
    let planned = DotLink::plan(&env, &target, "/home/user/dotfiles/etc/nvim").unwrap();
    assert_eq!(planned, link("/home/user/.config/nvim", "../dotfiles/etc/nvim"));

    let target =
        LocatedTarget::new(Target::new("bin".to_owned(), Some(false)), Destination::Home);
    let planned = DotLink::plan(&env, &target, "/opt/tools/bin").unwrap();
    assert_eq!(planned, link("/home/user/bin", "../../opt/tools/bin"));

    let target =
        LocatedTarget::new(Target::new("tool".to_owned(), Some(true)), Destination::Config);
    let planned = DotLink::plan(&env, &target, "/home/user/.config").unwrap();
    assert_eq!(planned, link("/home/user/.config/.tool", ""));
}

#[test]
fn plan_fails_without_a_relative_path() {
    let env = environment();
    let target = LocatedTarget::new(Target::new("bashrc".to_owned(), None), Destination::Home);
    let planned = DotLink::plan(&env, &target, "relative/source");
    assert!(matches!(planned, Err(DotLinkerError::RelativePath(_))));
}

#[test]
fn planned_holds_the_relative_path_it_is_given() {
    let env = environment();
    let target = LocatedTarget::new(Target::new("bashrc".to_owned(), None), Destination::Home);
    let planned = DotLink::planned(&env, &target, Ok("dotfiles/etc/bashrc".to_owned())).unwrap();
    assert_eq!(planned, link("/home/user/.bashrc", "dotfiles/etc/bashrc"));

    let target = LocatedTarget::new(Target::new("nvim".to_owned(), None), Destination::Config);
    let planned = DotLink::planned(&env, &target, Ok("../dotfiles/etc/nvim".to_owned())).unwrap();
    assert_eq!(planned, link("/home/user/.config/nvim", "../dotfiles/etc/nvim"));

    let target =
        LocatedTarget::new(Target::new("notes".to_owned(), Some(false)), Destination::Home);
    let planned = DotLink::planned(&env, &target, Ok(String::new())).unwrap();
    assert_eq!(planned, link("/home/user/notes", ""));
}

#[test]
fn planned_hands_on_the_missing_relative_path() {
    let env = environment();
    let target = LocatedTarget::new(Target::new("bashrc".to_owned(), None), Destination::Home);
    let missing = std::path::Path::new("relative/source")
        .relative_to("/home/user")
        .map(|found| found.into_string());
    assert!(missing.is_err());
    let planned = DotLink::planned(&env, &target, missing);
    assert!(matches!(planned, Err(DotLinkerError::RelativePath(_))));
}

#[test]
fn create_link_goes_by_the_real_path() {
    let env = environment();
    let disk = Disk::default()
        .with("/repo/etc/bashrc", Node::File)
        .real_path("/repo/etc/bashrc", "/mnt/data/repo/etc/bashrc");
    let linker = DotLinker::new(&disk, &disk);
    let planned = linker
        .create_link(&env, &map("/repo/etc/bashrc", "bashrc", None, Destination::Home))
        .unwrap();
    assert_eq!(planned, link("/home/user/.bashrc", "../../mnt/data/repo/etc/bashrc"));
    let missing = linker.create_link(&env, &map("/repo/etc/gone", "gone", None, Destination::Home));
    assert!(matches!(missing, Err(DotLinkerError::Io(e)) if e.kind == IoErrorKind::NotFound));
}

#[test]
fn paths_join_as_components() {
    assert_eq!(join("/home/user", ".bashrc"), "/home/user/.bashrc");
    assert_eq!(join("/home/user/", ".bashrc"), "/home/user/.bashrc");
    assert_eq!(join("", "etc"), "etc");
    assert_eq!(join("/", "etc"), "/etc");
    assert_eq!(join("/home/user", "/etc/passwd"), "/etc/passwd");
    assert_eq!(join("repo", ""), "repo/");
    for (dir, name) in [("/a/b", "c"), ("a/", "b/c"), ("", ""), ("/", "/x"), ("a", "..")] {
        assert_eq!(
            std::path::Path::new(&join(dir, name)),
            std::path::Path::new(dir).join(name).as_path()
        );
        assert_eq!(join(dir, name), std::path::Path::new(dir).join(name).to_str().unwrap());
    }
    assert!(is_absolute("/abs/other"));
    assert!(is_absolute("/"));
    assert!(!is_absolute("../dotfiles/x"));
    assert!(!is_absolute(""));
}

#[test]
fn link_sets_hold_each_link_once() {
    let mut set = DotLinkSet::new();
    assert!(set.is_empty());
    assert!(set.insert(link("/h/.a", "r/a")));
    assert!(set.insert(link("/h/.a", "r/b")));
    assert!(!set.insert(link("/h/.a", "r/a")));
    assert_eq!(set.len(), 2);
    assert!(set.contains(&link("/h/.a", "r/b")));
    assert!(!set.contains(&link("/h/.b", "r/b")));
    assert_eq!(set.links(), &vec![link("/h/.a", "r/a"), link("/h/.a", "r/b")]);
    assert!(link("/h/.a", "r/a").same_as(&link("/h/.a", "r/a")));
    assert!(!link("/h/.a", "r/a").same_as(&link("/h/.a", "r/b")));
}

#[test]
fn record_puts_each_status_in_its_bucket() {
    let mut recon = DotReconciliation::new();
    recon.record(link("/h/.a", "a"), &DotStatus::Confirmed);
    recon.record(link("/h/.b", "b"), &DotStatus::Pending);
    recon.record(link("/h/.c", "c"), &DotStatus::Clobber);
    recon.record(link("/h/.d", "d"), &DotStatus::WrongLink("x".to_owned()));
    recon.record(link("/h/.e", "e"), &DotStatus::AbsoluteLink("/x".to_owned()));
    recon.record(link("/h/.f", "f"), &DotStatus::WrongAbsoluteLink("/y".to_owned()));
    assert_eq!(recon.confirmed.links(), &vec![link("/h/.a", "a")]);
    assert_eq!(recon.pending.links(), &vec![link("/h/.b", "b")]);
    assert_eq!(recon.clobber.links(), &vec![link("/h/.c", "c")]);
    assert_eq!(
        recon.fix.links(),
        &vec![link("/h/.d", "d"), link("/h/.e", "e"), link("/h/.f", "f")]
    );
    assert_eq!(recon.total(), Some(6));
}

fn mixed_disk() -> Disk {
    Disk::default()
        .with("/repo/etc/confirmed", Node::File)
        .with("/repo/etc/pending", Node::File)
        .with("/repo/etc/clobber", Node::File)
        .with("/repo/etc/wrong", Node::File)
        .with("/repo/etc/absolute", Node::File)
        .with("/home/user/.confirmed", Node::Link("../../repo/etc/confirmed".to_owned()))
        .with("/home/user/.clobber", Node::File)
        .with("/home/user/.wrong", Node::Link("../../repo/etc/other".to_owned()))
        .with("/home/user/.config/absolute", Node::Link("/repo/etc/absolute".to_owned()))
}

fn mixed_maps() -> Vec<DotMap> {
    vec![
        map("/repo/etc/confirmed", "confirmed", None, Destination::Home),
        map("/repo/etc/pending", "pending", None, Destination::Home),
        map("/repo/etc/clobber", "clobber", None, Destination::Home),
        map("/repo/etc/wrong", "wrong", None, Destination::Home),
        map("/repo/etc/absolute", "absolute", None, Destination::Config),
    ]
}

#[test]
fn reconciliation_sorts_links_into_buckets() {
    let env = environment();
    let disk = mixed_disk();
    let linker = DotLinker::new(&disk, &disk);
    let recon = DotReconciliation::with_linker(&linker, &env, mixed_maps()).unwrap();
    assert_eq!(
        recon.confirmed.links(),
        &vec![link("/home/user/.confirmed", "../../repo/etc/confirmed")]
    );
    assert_eq!(
        recon.pending.links(),
        &vec![link("/home/user/.pending", "../../repo/etc/pending")]
    );
    assert_eq!(
        recon.clobber.links(),
        &vec![link("/home/user/.clobber", "../../repo/etc/clobber")]
    );
    assert_eq!(
        recon.fix.links(),
        &vec![
            link("/home/user/.wrong", "../../repo/etc/wrong"),
            link("/home/user/.config/absolute", "../../../repo/etc/absolute"),
        ]
    );
}

#[test]
fn buckets_partition_the_mappings() {
    let env = environment();
    let disk = mixed_disk();
    let linker = DotLinker::new(&disk, &disk);
    let maps = mixed_maps();
    let count = maps.len();
    let recon = DotReconciliation::with_linker(&linker, &env, maps).unwrap();
    assert_eq!(
        recon.confirmed.len() + recon.pending.len() + recon.clobber.len() + recon.fix.len(),
        count
    );
    assert_eq!(recon.total(), Some(count));
    let buckets = [&recon.confirmed, &recon.pending, &recon.clobber, &recon.fix];
    for (i, one) in buckets.iter().enumerate() {
        for (j, other) in buckets.iter().enumerate() {
            if i != j {
                for link in one.links() {
                    assert!(!other.contains(link));
                }
            }
        }
    }
}

#[test]
fn two_sources_with_one_real_path_give_one_link() {
    let env = environment();
    let disk = Disk::default()
        .with("/repo/etc/a/tool", Node::File)
        .with("/repo/etc/b/tool", Node::Link("../a/tool".to_owned()))
        .real_path("/repo/etc/b/tool", "/repo/etc/a/tool");
    let linker = DotLinker::new(&disk, &disk);
    let maps = vec![
        map("/repo/etc/a/tool", "tool", None, Destination::Home),
        map("/repo/etc/b/tool", "tool", None, Destination::Home),
    ];
    let recon = DotReconciliation::with_linker(&linker, &env, maps).unwrap();
    assert_eq!(recon.total(), Some(1));
    assert_eq!(recon.pending.links(), &vec![link("/home/user/.tool", "../../repo/etc/a/tool")]);
}

#[test]
fn reconciling_twice_gives_the_same_result() {
    let env = environment();
    let disk = mixed_disk();
    let linker = DotLinker::new(&disk, &disk);
    let first = DotReconciliation::with_linker(&linker, &env, mixed_maps()).unwrap();
    let second = DotReconciliation::with_linker(&linker, &env, mixed_maps()).unwrap();
    assert_eq!(first.confirmed.links(), second.confirmed.links());
    assert_eq!(first.pending.links(), second.pending.links());
    assert_eq!(first.clobber.links(), second.clobber.links());
    assert_eq!(first.fix.links(), second.fix.links());
}

#[test]
fn reconciliation_of_nothing_is_empty() {
    let env = environment();
    let disk = Disk::default();
    let linker = DotLinker::new(&disk, &disk);
    let recon = DotReconciliation::with_linker(&linker, &env, vec![]).unwrap();
    assert!(recon.confirmed.is_empty());
    assert!(recon.pending.is_empty());
    assert!(recon.clobber.is_empty());
    assert!(recon.fix.is_empty());
    assert_eq!(recon.total(), Some(0));
}

#[test]
fn the_first_failure_ends_the_reconciliation() {
    let env = environment();
    let disk = mixed_disk();
    let linker = DotLinker::new(&disk, &disk);
    let mut maps = mixed_maps();
    maps.insert(1, map("/repo/etc/missing", "missing", None, Destination::Home));
    let result = DotReconciliation::with_linker(&linker, &env, maps);
    assert!(matches!(
        result,
        Err(DotReconciliationError::Linker(DotLinkerError::Io(e)))
            if e.kind == IoErrorKind::NotFound && e.message == "/repo/etc/missing"
    ));
}

#[test]
fn a_source_without_a_relative_path_ends_the_reconciliation() {
    let env = environment();
    let disk = mixed_disk().real_path("/repo/etc/adrift", "adrift/source");
    let linker = DotLinker::new(&disk, &disk);
    let mut maps = mixed_maps();
    maps.push(map("/repo/etc/adrift", "adrift", None, Destination::Home));
    let result = DotReconciliation::with_linker(&linker, &env, maps);
    assert!(matches!(
        result,
        Err(DotReconciliationError::Linker(DotLinkerError::RelativePath(_)))
    ));
}

#[test]
fn a_dangling_link_is_found_as_a_link() {
    let disk = Disk::default()
        .with("/home/user/.wrong", Node::Dangling("../gone/elsewhere".to_owned()))
        .with("/home/user/.right", Node::Dangling("../dotfiles/./x".to_owned()))
        .with("/home/user/.abs", Node::Dangling("/gone".to_owned()));
    assert!(!disk.path_exists("/home/user/.wrong"));
    let linker = DotLinker::new(&disk, &disk);
    assert_eq!(
        linker.check(&link("/home/user/.wrong", "../dotfiles/x")).unwrap(),
        DotStatus::WrongLink("../gone/elsewhere".to_owned())
    );
    assert_eq!(
        linker.check(&link("/home/user/.right", "../dotfiles/x")).unwrap(),
        DotStatus::Confirmed
    );
    assert_eq!(
        linker.check(&link("/home/user/.abs", "../dotfiles/x")).unwrap(),
        DotStatus::AbsoluteLink("/gone".to_owned())
    );
}

#[test]
fn what_is_found_goes_by_the_answers() {
    assert_eq!(Found::from_answers(None, false), Found::Nothing);
    assert_eq!(Found::from_answers(None, true), Found::NotALink);
    assert_eq!(Found::from_answers(Some("a/b".to_owned()), true), Found::Link("a/b".to_owned()));
    assert_eq!(Found::from_answers(Some("a/b".to_owned()), false), Found::Link("a/b".to_owned()));
}

#[test]
fn the_order_of_the_mappings_does_not_matter() {
    let env = environment();
    let disk = mixed_disk();
    let linker = DotLinker::new(&disk, &disk);
    let first = DotReconciliation::with_linker(&linker, &env, mixed_maps()).unwrap();
    let mut turned = mixed_maps();
    turned.reverse();
    // A mapping that is given twice plans the same link twice.
    turned.push(map("/repo/etc/wrong", "wrong", None, Destination::Home));
    let second = DotReconciliation::with_linker(&linker, &env, turned).unwrap();
    let buckets = [
        (&first.confirmed, &second.confirmed),
        (&first.pending, &second.pending),
        (&first.clobber, &second.clobber),
        (&first.fix, &second.fix),
    ];
    for (one, other) in buckets {
        assert_eq!(one.len(), other.len());
        for link in one.links() {
            assert!(other.contains(link));
        }
    }
    assert_eq!(second.total(), Some(5));
}
