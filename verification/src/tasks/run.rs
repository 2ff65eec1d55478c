//! A whole run.
use crate::application::App;
use crate::cli::{Cli, Command};
use crate::tasks::info::{info_task, InfoTaskError};
use crate::tasks::init::{init_task, InitTaskError};
use crate::tasks::sync::{sync_task, SyncReport, SyncTaskError};
use vstd::prelude::*;

verus! {

/// Why a run was given up.
#[derive(Debug)]
pub enum RunTaskError {
    Init(InitTaskError),
    Sync(SyncTaskError),
    Info(InfoTaskError),
}

/// What a run did.
#[derive(Debug)]
pub enum RunOutcome {
    /// The links were brought in line, as far as the report says.
    Synced(SyncReport),
    /// The environment, described.
    Shown(String),
}

/// Makes out the environment, then does what the command asks for. The
/// outcome is of the kind that the command calls for.
pub fn run<'a, APP: App<'a>>(app: &'a APP, cli: &Cli) -> (done: Result<RunOutcome, RunTaskError>)
    ensures
        match done {
            Ok(RunOutcome::Synced(_)) => cli.command == Command::Sync,
            Ok(RunOutcome::Shown(_)) => cli.command == Command::Info,
            Err(error) => error is Init || (error is Sync && cli.command == Command::Sync),
        },
{
    let dotzo = match init_task(app, cli) {
        Ok(dotzo) => dotzo,
        Err(error) => {
            return Err(RunTaskError::Init(error));
        },
    };
    match cli.command {
        Command::Sync => match sync_task(app, cli, dotzo) {
            Ok(report) => Ok(RunOutcome::Synced(report)),
            Err(error) => Err(RunTaskError::Sync(error)),
        },
        Command::Info => match info_task(dotzo.environment) {
            Ok(text) => Ok(RunOutcome::Shown(text)),
            Err(error) => Err(RunTaskError::Info(error)),
        },
    }
}

} // verus!
