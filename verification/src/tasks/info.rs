//! Showing the environment.
use crate::dir::{Dir, Labeled};
use crate::environment::types::{CacheDir, ConfigDir, DataDir, Environment, EnvironmentView, Home, StateDir};
use core::convert::Infallible;
use vstd::prelude::*;
use vstd::string::StringExecFns;

verus! {

/// Showing the environment cannot fail: there is no value of this type.
#[derive(Debug, PartialEq, Eq)]
pub struct InfoTaskError {
    never: Infallible,
}

/// One line of the description: a label, a colon and a space, the path, and
/// the end of the line.
pub open spec fn described_dir(label: Seq<char>, path: Seq<char>) -> Seq<char> {
    label + seq![':', ' '] + path + seq!['\n']
}

/// The description of an environment: a line for each of its directories.
pub open spec fn described(environment: EnvironmentView) -> Seq<char> {
    described_dir(Home::LABEL@, environment.home) + described_dir(
        ConfigDir::LABEL@,
        environment.config,
    ) + described_dir(DataDir::LABEL@, environment.data) + described_dir(
        StateDir::LABEL@,
        environment.state,
    ) + described_dir(CacheDir::LABEL@, environment.cache)
}

/// One line of the description: see [`described_dir`].
fn describe_dir(label: &str, path: &str) -> (line: String)
    ensures
        line@ == described_dir(label@, path@),
{
    proof {
        reveal_strlit(": ");
        reveal_strlit("\n");
    }
    label.to_owned().concat(": ").concat(path).concat("\n")
}

/// Describes the environment: see [`described`].
pub fn info_task(environment: Environment) -> (shown: Result<String, InfoTaskError>)
    ensures
        shown matches Ok(text) && text@ == described(environment@),
{
    let text = describe_dir(Home::LABEL, environment.home.as_path()).concat(
        describe_dir(ConfigDir::LABEL, environment.config.as_path()).as_str(),
    ).concat(describe_dir(DataDir::LABEL, environment.data.as_path()).as_str()).concat(
        describe_dir(StateDir::LABEL, environment.state.as_path()).as_str(),
    ).concat(describe_dir(CacheDir::LABEL, environment.cache.as_path()).as_str());
    Ok(text)
}

} // verus!
