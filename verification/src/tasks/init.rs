//! Making out the environment and the repository of a run.
use crate::application::{App, Dotzo};
use crate::cli::Cli;
use crate::collections::option_text;
use crate::environment::checks::home::HomeCheckError;
use crate::environment::checks::tree::LayoutCheckError;
use crate::environment::inference::{EnvironmentInference, EnvironmentInferenceError};
use crate::repo::types::Repo;
use vstd::prelude::*;

verus! {

/// Why the environment of a run could not be made out.
#[derive(Debug, PartialEq, Eq)]
pub enum InitTaskError {
    Home(HomeCheckError),
    Layout(LayoutCheckError),
    EnvironmentInference(EnvironmentInferenceError),
}

/// Makes out the home directory, checks it, reads the file that describes
/// the repository, makes out the rest of the environment and the repository,
/// and checks the directories of the environment, having the missing ones
/// made after asking. The first failure ends the task.
///
/// A home directory that is given is the one taken, and so is a repository.
pub fn init_task<'a, APP: App<'a>>(app: &'a APP, cli: &Cli) -> (made: Result<Dotzo, InitTaskError>)
    ensures
        match made {
            Ok(dotzo) => {
                &&& cli.home_dir is Some ==> Some(dotzo.environment@.home) == option_text(cli.home_dir)
                &&& cli.config is Some ==> Some(dotzo.repo.path@) == option_text(cli.config)
            },
            Err(error) => error is Layout || error is Home || error is EnvironmentInference,
        },
{
    let inference = app.inference();
    let home_check = app.home_check();
    let checks = app.layout_check(false, true);
    let home = match inference.create_home(cli.home_dir.clone()) {
        Ok(home) => home,
        Err(error) => {
            return Err(InitTaskError::EnvironmentInference(error));
        },
    };
    match home_check.check(&home) {
        Ok(()) => {},
        Err(error) => {
            return Err(InitTaskError::Home(error));
        },
    }
    let rc = match inference.load_rc(app.rc_source(), &home) {
        Ok(rc) => rc,
        Err(error) => {
            return Err(InitTaskError::EnvironmentInference(error));
        },
    };
    let environment = match inference.create(home, &rc, cli.config_dir.clone()) {
        Ok(environment) => environment,
        Err(error) => {
            return Err(InitTaskError::EnvironmentInference(error));
        },
    };
    let repo = Repo::from_config(&environment, &rc, cli.config.clone());
    match checks.check(&environment) {
        Ok(()) => {},
        Err(error) => {
            return Err(InitTaskError::Layout(error));
        },
    }
    Ok(Dotzo::new(environment, repo))
}

} // verus!
