//! The roots of an environment and what a destination means in it.
use crate::dir::{Dir, Labeled, LabeledDir};
use crate::mapping::Destination;
use crate::relative::{to_path, to_path_spec};
use vstd::prelude::*;
use vstd::string::StringExecFns;

verus! {

/// The user's home directory.
#[derive(Debug, PartialEq, Eq)]
pub struct Home {
    path: String,
}

/// Where configuration lives.
#[derive(Debug, PartialEq, Eq)]
pub struct ConfigDir {
    path: String,
}

/// Where application data lives.
#[derive(Debug, PartialEq, Eq)]
pub struct DataDir {
    path: String,
}

/// Where application state lives.
#[derive(Debug, PartialEq, Eq)]
pub struct StateDir {
    path: String,
}

/// Where caches live.
#[derive(Debug, PartialEq, Eq)]
pub struct CacheDir {
    path: String,
}

impl Home {
    pub fn new(path: String) -> (dir: Self)
        ensures
            dir.path_text() == path@,
    {
        Home { path }
    }
}

impl Dir for Home {
    closed spec fn path_text(&self) -> Seq<char> {
        self.path@
    }

    fn from_path(path: String) -> (dir: Self) {
        Home { path }
    }

    fn as_path(&self) -> (path: &str) {
        self.path.as_str()
    }
}

impl Labeled for Home {
    const LABEL: &'static str = "home";
}

impl ConfigDir {
    pub fn new(path: String) -> (dir: Self)
        ensures
            dir.path_text() == path@,
    {
        ConfigDir { path }
    }
}

impl Dir for ConfigDir {
    closed spec fn path_text(&self) -> Seq<char> {
        self.path@
    }

    fn from_path(path: String) -> (dir: Self) {
        ConfigDir { path }
    }

    fn as_path(&self) -> (path: &str) {
        self.path.as_str()
    }
}

impl Labeled for ConfigDir {
    const LABEL: &'static str = "config";
}

impl DataDir {
    pub fn new(path: String) -> (dir: Self)
        ensures
            dir.path_text() == path@,
    {
        DataDir { path }
    }
}

impl Dir for DataDir {
    closed spec fn path_text(&self) -> Seq<char> {
        self.path@
    }

    fn from_path(path: String) -> (dir: Self) {
        DataDir { path }
    }

    fn as_path(&self) -> (path: &str) {
        self.path.as_str()
    }
}

impl Labeled for DataDir {
    const LABEL: &'static str = "data";
}

impl StateDir {
    pub fn new(path: String) -> (dir: Self)
        ensures
            dir.path_text() == path@,
    {
        StateDir { path }
    }
}

impl Dir for StateDir {
    closed spec fn path_text(&self) -> Seq<char> {
        self.path@
    }

    fn from_path(path: String) -> (dir: Self) {
        StateDir { path }
    }

    fn as_path(&self) -> (path: &str) {
        self.path.as_str()
    }
}

impl Labeled for StateDir {
    const LABEL: &'static str = "state";
}

impl CacheDir {
    pub fn new(path: String) -> (dir: Self)
        ensures
            dir.path_text() == path@,
    {
        CacheDir { path }
    }
}

impl Dir for CacheDir {
    closed spec fn path_text(&self) -> Seq<char> {
        self.path@
    }

    fn from_path(path: String) -> (dir: Self) {
        CacheDir { path }
    }

    fn as_path(&self) -> (path: &str) {
        self.path.as_str()
    }
}

impl Labeled for CacheDir {
    const LABEL: &'static str = "cache";
}

/// A directory with a customary place below the home directory.
pub trait CoreDir: LabeledDir {
    /// The customary place, as a path relative to the home directory.
    spec fn spec_relative_to_home() -> Seq<char>;

    fn relative_to_home() -> (relative: String)
        ensures
            relative@ == Self::spec_relative_to_home(),
    ;

    /// The customary place below `home`.
    fn from_home(home: &Home) -> (path: String)
        ensures
            path@ == to_path_spec(Self::spec_relative_to_home(), home.path_text()),
    {
        let relative = Self::relative_to_home();
        to_path(relative.as_str(), home.as_path())
    }
}

impl CoreDir for ConfigDir {
    open spec fn spec_relative_to_home() -> Seq<char> {
        ".config"@
    }

    fn relative_to_home() -> (relative: String) {
        String::from_str(".config")
    }
}

impl CoreDir for DataDir {
    open spec fn spec_relative_to_home() -> Seq<char> {
        ".local/share"@
    }

    fn relative_to_home() -> (relative: String) {
        String::from_str(".local/share")
    }
}

impl CoreDir for StateDir {
    open spec fn spec_relative_to_home() -> Seq<char> {
        ".local/state"@
    }

    fn relative_to_home() -> (relative: String) {
        String::from_str(".local/state")
    }
}

impl CoreDir for CacheDir {
    open spec fn spec_relative_to_home() -> Seq<char> {
        ".cache"@
    }

    fn relative_to_home() -> (relative: String) {
        String::from_str(".cache")
    }
}

/// What a destination means in an environment: its root, and whether links
/// under it are dot-prefixed by default.
#[derive(Debug)]
pub struct DestinationData<'a> {
    pub dot_default: bool,
    pub path: &'a str,
}

impl<'a> DestinationData<'a> {
    pub fn new(dot_default: bool, path: &'a str) -> (data: Self)
        ensures
            data.dot_default == dot_default,
            data.path == path,
    {
        DestinationData { dot_default, path }
    }
}

/// The directories of one environment.
#[derive(Debug, PartialEq, Eq)]
pub struct Environment {
    pub home: Home,
    pub config: ConfigDir,
    pub data: DataDir,
    pub state: StateDir,
    pub cache: CacheDir,
}

pub struct EnvironmentView {
    pub home: Seq<char>,
    pub config: Seq<char>,
    pub data: Seq<char>,
    pub state: Seq<char>,
    pub cache: Seq<char>,
}

impl EnvironmentView {
    /// The root that links for `destination` are created under.
    pub open spec fn root(self, destination: Destination) -> Seq<char> {
        match destination {
            Destination::Home => self.home,
            Destination::Config => self.config,
        }
    }
}

impl View for Environment {
    type V = EnvironmentView;

    open spec fn view(&self) -> EnvironmentView {
        EnvironmentView {
            home: self.home.path_text(),
            config: self.config.path_text(),
            data: self.data.path_text(),
            state: self.state.path_text(),
            cache: self.cache.path_text(),
        }
    }
}

impl Environment {
    pub fn new(
        home: Home,
        config: ConfigDir,
        data: DataDir,
        state: StateDir,
        cache: CacheDir,
    ) -> (environment: Self)
        ensures
            environment.home == home,
            environment.config == config,
            environment.data == data,
            environment.state == state,
            environment.cache == cache,
    {
        Environment { home, config, data, state, cache }
    }

    /// The root of `destination` in this environment, with the destination's
    /// default for the leading dot.
    pub fn destination_data<'a>(&'a self, destination: &Destination) -> (data: DestinationData<'a>)
        ensures
            data.dot_default == destination.spec_dot_default(),
            data.path@ == self@.root(*destination),
    {
        match destination {
            Destination::Home => DestinationData::new(true, self.home.as_path()),
            Destination::Config => DestinationData::new(false, self.config.as_path()),
        }
    }
}

} // verus!
