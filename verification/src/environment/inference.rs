//! Finding the directories of an environment: given, inferred, or customary.
use crate::collections::option_text;
use crate::config::file::ConfigFileReadError;
use crate::config::rc::{Rc, RcSource};
use crate::dir::{Dir, LabeledDir};
use crate::environment::types::{CacheDir, ConfigDir, CoreDir, DataDir, Environment, Home, StateDir};
use crate::relative::to_path_spec;
use vstd::prelude::*;

verus! {

/// Why an environment could not be made out.
#[derive(Debug, PartialEq, Eq)]
pub enum EnvironmentInferenceError {
    CannotInferHome,
    RcNotFound,
    RcFileReadError(ConfigFileReadError),
}

/// The path to take for a directory: the one given, or else the one inferred.
pub open spec fn chosen_path(given: Option<Seq<char>>, inferred: Option<Seq<char>>) -> Option<Seq<char>> {
    match given {
        Some(path) => Some(path),
        None => inferred,
    }
}

/// The path to take for a directory with a customary place: the chosen one,
/// or else the customary one.
pub open spec fn chosen_or_default(
    given: Option<Seq<char>>,
    inferred: Option<Seq<char>>,
    customary: Seq<char>,
) -> Seq<char> {
    match chosen_path(given, inferred) {
        Some(path) => path,
        None => customary,
    }
}

/// The path of a directory that may be missing.
pub open spec fn dir_text<D: Dir>(dir: Option<D>) -> Option<Seq<char>> {
    match dir {
        Some(dir) => Some(dir.path_text()),
        None => None,
    }
}

/// Infers where a kind of directory is on this machine.
pub trait DirInference<D: LabeledDir> {
    /// The directory as the machine tells it, if it does.
    fn infer(&self) -> Option<String>;

    /// The directory to take: the one given, or else the one inferred.
    /// Nothing is inferred where a directory is given.
    fn inference(&self, given: Option<String>) -> (dir: Option<D>)
        ensures
            exists|inferred: Option<Seq<char>>|
                dir_text(dir) == #[trigger] chosen_path(option_text(given), inferred),
    {
        match given {
            Some(path) => Some(D::from_path(path)),
            None => {
                let inferred = self.infer();
                let dir = match inferred {
                    Some(path) => Some(D::from_path(path)),
                    None => None,
                };
                assert(dir_text(dir) == chosen_path(option_text(given), option_text(inferred)));
                dir
            },
        }
    }
}

/// Finds a directory that has a customary place below the home directory.
pub trait CoreInference<D: CoreDir>: DirInference<D> {
    /// The directory to take: the one given, or else the one inferred, or
    /// else the customary one below `home`.
    fn inference_or_default(&self, home: &Home, given: Option<String>) -> (dir: D)
        ensures
            exists|inferred: Option<Seq<char>>|
                dir.path_text() == #[trigger] chosen_or_default(
                    option_text(given),
                    inferred,
                    to_path_spec(D::spec_relative_to_home(), home.path_text()),
                ),
    {
        let ghost customary = to_path_spec(D::spec_relative_to_home(), home.path_text());
        let found: Option<D> = self.inference(given);
        proof {
            let inferred = choose|inferred: Option<Seq<char>>|
                dir_text(found) == #[trigger] chosen_path(option_text(given), inferred);
            assert(found is Some ==> found->Some_0.path_text() == chosen_or_default(
                option_text(given),
                inferred,
                customary,
            ));
            assert(found is None ==> customary == chosen_or_default(
                option_text(given),
                inferred,
                customary,
            ));
        }
        match found {
            Some(dir) => dir,
            None => D::from_path(D::from_home(home)),
        }
    }
}

impl<D: CoreDir, T: DirInference<D>> CoreInference<D> for T {

}

/// Makes out a whole environment.
pub trait EnvironmentInference: DirInference<Home> + CoreInference<ConfigDir> + CoreInference<
    DataDir,
> + CoreInference<StateDir> + CoreInference<CacheDir> {
    /// What the file in `home` says. A home directory without the file is an error.
    fn load_rc<S: RcSource>(&self, source: &S, home: &Home) -> (loaded: Result<
        Rc,
        EnvironmentInferenceError,
    >)
        ensures
            match loaded {
                Ok(_) => true,
                Err(error) => error is RcNotFound || error is RcFileReadError,
            },
    {
        match source.read_rc(home.as_path()) {
            Ok(Some(rc)) => Ok(rc),
            Ok(None) => Err(EnvironmentInferenceError::RcNotFound),
            Err(error) => Err(EnvironmentInferenceError::RcFileReadError(error)),
        }
    }

    /// The home directory: the one given, or else the one inferred. Where
    /// none is given and none can be inferred, `CannotInferHome`.
    fn create_home(&self, given_home: Option<String>) -> (home: Result<Home, EnvironmentInferenceError>)
        ensures
            match home {
                Ok(home) => exists|inferred: Option<Seq<char>>|
                    Some(home.path_text()) == #[trigger] chosen_path(option_text(given_home), inferred),
                Err(error) => error == EnvironmentInferenceError::CannotInferHome && given_home is None,
            },
    {
        let found: Option<Home> = <Self as DirInference<Home>>::inference(self, given_home);
        match found {
            Some(home) => Ok(home),
            None => Err(EnvironmentInferenceError::CannotInferHome),
        }
    }

    /// The environment of `home`: the configuration directory as given,
    /// inferred or customary, the others as inferred or customary.
    fn create(&self, home: Home, rc: &Rc, given_config: Option<String>) -> (environment: Result<
        Environment,
        EnvironmentInferenceError,
    >)
        ensures
            match environment {
                Ok(environment) => {
                    &&& environment.home == home
                    &&& exists|inferred: Option<Seq<char>>|
                        environment.config.path_text() == #[trigger] chosen_or_default(
                            option_text(given_config),
                            inferred,
                            to_path_spec(ConfigDir::spec_relative_to_home(), home.path_text()),
                        )
                },
                Err(_) => false,
            },
    {
        let config: ConfigDir = <Self as CoreInference<ConfigDir>>::inference_or_default(
            self,
            &home,
            given_config,
        );
        let data: DataDir = <Self as CoreInference<DataDir>>::inference_or_default(self, &home, None);
        let state: StateDir = <Self as CoreInference<StateDir>>::inference_or_default(
            self,
            &home,
            None,
        );
        let cache: CacheDir = <Self as CoreInference<CacheDir>>::inference_or_default(
            self,
            &home,
            None,
        );
        Ok(Environment::new(home, config, data, state, cache))
    }
}

impl<
    E: DirInference<Home> + CoreInference<ConfigDir> + CoreInference<DataDir> + CoreInference<
        StateDir,
    > + CoreInference<CacheDir>,
> EnvironmentInference for E {

}

/// `dirs::home_dir`: what the machine and the user's session say. Nothing is
/// claimed of the answer.
#[verifier::external_body]
fn machine_home_dir() -> Option<String> {
    match dirs::home_dir() {
        Some(path) => Some(path.to_string_lossy().into_owned()),
        None => None,
    }
}

/// `dirs::config_local_dir`. Nothing is claimed of the answer.
#[verifier::external_body]
fn machine_config_dir() -> Option<String> {
    match dirs::config_local_dir() {
        Some(path) => Some(path.to_string_lossy().into_owned()),
        None => None,
    }
}

/// `dirs::data_local_dir`. Nothing is claimed of the answer.
#[verifier::external_body]
fn machine_data_dir() -> Option<String> {
    match dirs::data_local_dir() {
        Some(path) => Some(path.to_string_lossy().into_owned()),
        None => None,
    }
}

/// `dirs::state_dir`. Nothing is claimed of the answer.
#[verifier::external_body]
fn machine_state_dir() -> Option<String> {
    match dirs::state_dir() {
        Some(path) => Some(path.to_string_lossy().into_owned()),
        None => None,
    }
}

/// `dirs::cache_dir`. Nothing is claimed of the answer.
#[verifier::external_body]
fn machine_cache_dir() -> Option<String> {
    match dirs::cache_dir() {
        Some(path) => Some(path.to_string_lossy().into_owned()),
        None => None,
    }
}

/// Infers the directories from what the machine says of the user's session.
#[derive(Debug)]
pub struct DirsEnvironmentInference {}

impl DirsEnvironmentInference {
    pub fn new() -> Self {
        DirsEnvironmentInference {  }
    }
}

impl DirInference<Home> for DirsEnvironmentInference {
    fn infer(&self) -> Option<String> {
        machine_home_dir()
    }
}

impl DirInference<ConfigDir> for DirsEnvironmentInference {
    fn infer(&self) -> Option<String> {
        machine_config_dir()
    }
}

impl DirInference<DataDir> for DirsEnvironmentInference {
    fn infer(&self) -> Option<String> {
        machine_data_dir()
    }
}

impl DirInference<StateDir> for DirsEnvironmentInference {
    fn infer(&self) -> Option<String> {
        machine_state_dir()
    }
}

impl DirInference<CacheDir> for DirsEnvironmentInference {
    fn infer(&self) -> Option<String> {
        machine_cache_dir()
    }
}

} // verus!
