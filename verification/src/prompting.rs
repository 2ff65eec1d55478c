//! Questions put to the user.
use vstd::prelude::*;

verus! {

/// A question that could not be put, or got no answer.
#[derive(Debug, PartialEq, Eq)]
pub enum PrompterError {
    General(String),
}

/// Puts questions to the user. The trait promises nothing of the answers.
pub trait Prompter {
    /// Asks for a yes or a no, `default` being what an empty answer means.
    fn confirm(&self, message: &str, default: bool) -> Result<bool, PrompterError>;
}

} // verus!
