//! The file in the home directory that says where the repository is.
use crate::config::file::{ConfigFileReadError, ConfigFormat, ConfigType, ReadFromConfig};
use vstd::prelude::*;
use vstd::string::StringExecFns;

verus! {

/// Where the repository is published.
#[derive(Debug, PartialEq, Eq)]
pub struct Remote {
    uri: String,
}

/// The repository as the file describes it: its place relative to the home
/// directory, and where it is published.
#[derive(Debug, PartialEq, Eq)]
pub struct Repo {
    pub location: String,
    pub remote: Option<Remote>,
}

/// What the file in the home directory says.
#[derive(Debug, PartialEq, Eq)]
pub struct Rc {
    pub repo: Repo,
}

impl Remote {
    /// The address of the remote.
    pub closed spec fn uri_text(&self) -> Seq<char> {
        self.uri@
    }

    pub fn new(uri: String) -> (remote: Self)
        ensures
            remote.uri_text() == uri@,
    {
        Remote { uri }
    }

    pub fn uri(&self) -> (uri: &str)
        ensures
            uri@ == self.uri_text(),
    {
        self.uri.as_str()
    }
}

impl Clone for Remote {
    fn clone(&self) -> (copy: Self)
        ensures
            copy == *self,
    {
        Remote { uri: self.uri.clone() }
    }
}

impl Repo {
    pub fn new(location: String, remote: Option<Remote>) -> (repo: Self)
        ensures
            repo.location == location,
            repo.remote == remote,
    {
        Repo { location, remote }
    }
}

impl Rc {
    pub fn new(repo: Repo) -> (rc: Self)
        ensures
            rc.repo == repo,
    {
        Rc { repo }
    }
}

impl Default for Rc {
    /// The repository in `_` below the home directory, without a remote.
    fn default() -> (rc: Self)
        ensures
            rc.repo.location@ == "_"@,
            rc.repo.remote is None,
    {
        Rc { repo: Repo { location: String::from_str("_"), remote: None } }
    }
}

impl ReadFromConfig for Rc {
    /// The file `.dotrc`, which is YAML where its name has no extension.
    fn config_type() -> (kind: ConfigType)
        ensures
            kind.path@ == ".dotrc"@,
            kind.default_format == Some(ConfigFormat::Yaml),
    {
        ConfigType::default_yaml(String::from_str(".dotrc"))
    }
}

/// Where the file of a home directory comes from.
pub trait RcSource {
    /// What the file found in `home` says, if there is one.
    fn read_rc(&self, home: &str) -> Result<Option<Rc>, ConfigFileReadError>;
}

} // verus!
