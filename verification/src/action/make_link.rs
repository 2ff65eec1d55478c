//! Creating a planned link.
use crate::actions::{Actions, Error};
use crate::collections::option_text;
use crate::fs::{IoError, IoErrorKind, LinkReader, MetadataChecks};
use crate::linker::types::DotLink;
use crate::paths::{same_path, same_path_spec};
use crate::relative::{to_path, to_path_spec};
use vstd::prelude::*;

verus! {

/// Why a link was not created.
#[derive(Debug, PartialEq, Eq)]
pub enum LinkCreatorError {
    Action(Error),
    Io(IoError),
}

/// Creates planned links.
#[derive(Debug)]
pub struct LinkCreator<'a, MC: MetadataChecks, LR: LinkReader, A: Actions> {
    metadata_checks: &'a MC,
    link_reader: &'a LR,
    actions: &'a A,
}

/// Whether the link that stands in the way is the wanted one: `existing` is
/// its content, or nothing where no link stands there.
pub open spec fn already_linked(existing: Option<Seq<char>>, wanted: Seq<char>) -> bool {
    match existing {
        Some(content) => same_path_spec(content, wanted),
        None => false,
    }
}

/// The outcome where something stood in the way of a link: none was created
/// if the wanted link is there already, and else the collision stands.
pub open spec fn is_collision_outcome(
    existing: Option<Seq<char>>,
    wanted: Seq<char>,
    outcome: Result<bool, LinkCreatorError>,
) -> bool {
    if already_linked(existing, wanted) {
        outcome == Ok::<bool, LinkCreatorError>(false)
    } else {
        match outcome {
            Err(LinkCreatorError::Action(Error::Io(cause))) => cause.kind == IoErrorKind::AlreadyExists,
            _ => false,
        }
    }
}

/// Whether a change failed because something stands in its place.
pub open spec fn collided(error: Error) -> bool {
    match error {
        Error::Io(cause) => cause.kind == IoErrorKind::AlreadyExists,
    }
}

/// What comes of the attempt to create a link, as far as the attempt alone
/// settles it: a link that was made is done, and a failure is handed on,
/// unless something stood in the way, which is for a look at what stands
/// there to settle.
pub open spec fn attempt_outcome(answer: Result<(), Error>) -> Option<
    Result<bool, LinkCreatorError>,
> {
    match answer {
        Ok(_) => Some(Ok(true)),
        Err(error) => if collided(error) {
            None
        } else {
            Some(Err(LinkCreatorError::Action(error)))
        },
    }
}

/// What a link holds once it is written out as a path.
pub open spec fn link_content(link: Seq<char>) -> Seq<char> {
    to_path_spec(link, Seq::empty())
}

/// Whether `created` is what comes of creating a link that is to hold
/// `wanted`, given what the file system answered to the attempt and, where
/// something stood in the way, the content of the link found there, or
/// nothing where no link stands there. The attempt decides where it can;
/// after a collision the outcome is that of the collision, unless the link
/// in the way could not be read, which is an error of its own.
pub open spec fn is_created_outcome(
    answer: Result<(), Error>,
    existing: Option<Seq<char>>,
    wanted: Seq<char>,
    created: Result<bool, LinkCreatorError>,
) -> bool {
    match attempt_outcome(answer) {
        Some(outcome) => created == outcome,
        None => created matches Err(LinkCreatorError::Io(_)) || is_collision_outcome(
            existing,
            wanted,
            created,
        ),
    }
}

/// Whether `created` is what comes of creating the link that is to hold
/// `link`, for some answers of the file system.
pub open spec fn is_creation_of(link: Seq<char>, created: Result<bool, LinkCreatorError>) -> bool {
    exists|answer: Result<(), Error>, existing: Option<Seq<char>>|
        is_created_outcome(answer, existing, link_content(link), created)
}

impl<'a, MC: MetadataChecks, LR: LinkReader, A: Actions> LinkCreator<'a, MC, LR, A> {
    /// What is asked whether a link stands in the way.
    pub closed spec fn metadata_checks(&self) -> &MC {
        self.metadata_checks
    }

    /// What the link in the way is read with.
    pub closed spec fn link_reader(&self) -> &LR {
        self.link_reader
    }

    /// What links are made with.
    pub closed spec fn actions(&self) -> &A {
        self.actions
    }

    pub fn new(metadata_checks: &'a MC, link_reader: &'a LR, actions: &'a A) -> (creator: Self)
        ensures
            creator.metadata_checks() == metadata_checks,
            creator.link_reader() == link_reader,
            creator.actions() == actions,
    {
        LinkCreator { metadata_checks, link_reader, actions }
    }

    /// What comes of the attempt to create a link: see [`attempt_outcome`].
    pub fn attempted(answer: Result<(), Error>) -> (outcome: Option<Result<bool, LinkCreatorError>>)
        ensures
            outcome == attempt_outcome(answer),
    {
        match answer {
            Ok(()) => Some(Ok(true)),
            Err(error) => if error.is_already_exists() {
                None
            } else {
                Some(Err(LinkCreatorError::Action(error)))
            },
        }
    }

    /// Settles a collision: see [`is_collision_outcome`].
    pub fn settle(existing: Option<String>, wanted: &str) -> (outcome: Result<bool, LinkCreatorError>)
        ensures
            is_collision_outcome(option_text(existing), wanted@, outcome),
    {
        let linked = match &existing {
            Some(content) => same_path(content.as_str(), wanted),
            None => false,
        };
        if linked {
            Ok(false)
        } else {
            Err(LinkCreatorError::Action(Error::from_io_kind(IoErrorKind::AlreadyExists)))
        }
    }

    /// Creates `link`, and answers whether it did. The link is written out
    /// as a path and handed to the file system; [`Self::attempted`] says what
    /// comes of its answer. Where something stands at the target already,
    /// the file system is asked whether it is a link, and for its content if
    /// so, and [`Self::settle`] says what comes of that: a link with the
    /// wanted content counts as done and nothing is created; anything else
    /// there is a collision, which is reported and left alone. A link in
    /// the way that cannot be read is an error of its own. The result is
    /// what comes of creating the link for some answers of the file system:
    /// see [`is_created_outcome`].
    pub fn create(&self, link: &DotLink) -> (created: Result<bool, LinkCreatorError>)
        ensures
            is_creation_of(link.link@, created),
    {
        let wanted = to_path(link.link.as_str(), "");
        proof {
            reveal_strlit("");
            assert(""@ =~= Seq::<char>::empty());
        }
        let answer = self.actions.symlink(link.target.as_str(), wanted.as_str());
        match LinkCreator::<MC, LR, A>::attempted(answer) {
            Some(outcome) => {
                assert(is_created_outcome(answer, None, link_content(link.link@), outcome));
                outcome
            },
            None => {
                let existing = if self.metadata_checks.is_symlink(link.target.as_str()) {
                    match self.link_reader.read_link(link.target.as_str()) {
                        Ok(content) => Some(content),
                        Err(error) => {
                            let created = Err(LinkCreatorError::Io(error));
                            assert(is_created_outcome(
                                answer,
                                None,
                                link_content(link.link@),
                                created,
                            ));
                            return created;
                        },
                    }
                } else {
                    None
                };
                let ghost seen = option_text(existing);
                let created = LinkCreator::<MC, LR, A>::settle(existing, wanted.as_str());
                assert(is_created_outcome(answer, seen, link_content(link.link@), created));
                created
            },
        }
    }
}

} // verus!
