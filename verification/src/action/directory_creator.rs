//! Creating a directory of the environment, once the user agrees.
use crate::actions::{Actions, Error};
use crate::dir::{Dir, Labeled, LabeledDir};
use crate::prompting::{Prompter, PrompterError};
use vstd::prelude::*;
use vstd::string::StringExecFns;

verus! {

/// Why a directory was not created.
#[derive(Debug, PartialEq, Eq)]
pub enum DirectoryCreatorError {
    Action(Error),
    Prompt(PrompterError),
    DeclinedToCreate,
}

/// Creates directories, asking first unless told not to.
#[derive(Debug)]
pub struct DirectoryCreator<'a, A: Actions, PR: Prompter> {
    actions: &'a A,
    prompter: &'a PR,
}

/// The question put before a directory is created.
pub open spec fn creation_question(label: Seq<char>, path: Seq<char>) -> Seq<char> {
    "Create "@ + label + " directory at "@ + path
}

/// Whether to go ahead, by what came of asking: the answer where there is
/// one, and the failure to ask handed on.
pub open spec fn agreement(answer: Result<bool, PrompterError>) -> Result<
    bool,
    DirectoryCreatorError,
> {
    match answer {
        Ok(agreed) => Ok(agreed),
        Err(error) => Err(DirectoryCreatorError::Prompt(error)),
    }
}

impl<'a, A: Actions, PR: Prompter> DirectoryCreator<'a, A, PR> {
    /// What directories are made with.
    pub closed spec fn actions(&self) -> &A {
        self.actions
    }

    /// Who is asked before a directory is made.
    pub closed spec fn prompter(&self) -> &PR {
        self.prompter
    }

    pub fn new(actions: &'a A, prompter: &'a PR) -> (creator: Self)
        ensures
            creator.actions() == actions,
            creator.prompter() == prompter,
    {
        DirectoryCreator { actions, prompter }
    }

    /// The question put before a directory is created: see [`creation_question`].
    pub fn question(label: &str, path: &str) -> (question: String)
        ensures
            question@ == creation_question(label@, path@),
    {
        String::from_str("Create ").concat(label).concat(" directory at ").concat(path)
    }

    /// Whether to go ahead, by what came of asking: see [`agreement`].
    pub fn agreed_by(answer: Result<bool, PrompterError>) -> (agreed: Result<
        bool,
        DirectoryCreatorError,
    >)
        ensures
            agreed == agreement(answer),
    {
        match answer {
            Ok(agreed) => Ok(agreed),
            Err(error) => Err(DirectoryCreatorError::Prompt(error)),
        }
    }

    /// Makes the directory `dir` where that was agreed to, and hands on a
    /// failure to make it. Without agreement nothing is made, and the
    /// result is `DeclinedToCreate`.
    pub fn create_agreed<D: LabeledDir>(&self, dir: &D, agreed: bool) -> (created: Result<
        (),
        DirectoryCreatorError,
    >)
        ensures
            match created {
                Ok(_) => agreed,
                Err(DirectoryCreatorError::Action(_)) => agreed,
                Err(DirectoryCreatorError::Prompt(_)) => false,
                Err(DirectoryCreatorError::DeclinedToCreate) => !agreed,
            },
    {
        if agreed {
            match self.actions.make_dir(dir.as_path()) {
                Ok(()) => Ok(()),
                Err(error) => Err(DirectoryCreatorError::Action(error)),
            }
        } else {
            Err(DirectoryCreatorError::DeclinedToCreate)
        }
    }

    /// Creates the directory `dir`. With `yes` nothing is asked; else the
    /// user is asked, no being the default, and a no ends in
    /// `DeclinedToCreate`. A failure to ask or to create is handed on.
    pub fn create<D: LabeledDir>(&self, dir: &D, yes: bool) -> (created: Result<
        (),
        DirectoryCreatorError,
    >)
        ensures
            match created {
                Ok(_) => true,
                Err(DirectoryCreatorError::Action(_)) => true,
                Err(DirectoryCreatorError::Prompt(_)) => !yes,
                Err(DirectoryCreatorError::DeclinedToCreate) => !yes,
            },
    {
        let agreed = if yes {
            true
        } else {
            let question = DirectoryCreator::<A, PR>::question(D::LABEL, dir.as_path());
            let answer = self.prompter.confirm(question.as_str(), false);
            match DirectoryCreator::<A, PR>::agreed_by(answer) {
                Ok(agreed) => agreed,
                Err(error) => {
                    return Err(error);
                },
            }
        };
        self.create_agreed(dir, agreed)
    }
}

} // verus!
