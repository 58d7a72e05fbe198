//! Getting a project by its code.
use vstd::prelude::*;

use crate::error::{outcome, Outcome, UseCaseError, UseCaseResult};
use crate::flow::Found;

verus! {

#[derive(Debug, Clone, PartialEq, Eq, Structural)]
pub enum Error {
    InvalidCode,
    NotFound,
}

impl Error {
    /// A code that does not parse is reported as invalid.
    pub fn from_code_error() -> (res: Self)
        ensures
            res is InvalidCode,
    {
        Error::InvalidCode
    }
}

/// The outcome of getting a project by its code: the code must parse, and
/// the project found by its index must be of the code's kind and visible.
pub open spec fn run_outcome<P>(code_parses: bool, project: Option<Found<P>>, kind_matches: bool) -> Outcome<P, Error> {
    if !code_parses {
        Outcome::Refused(Error::InvalidCode)
    } else {
        match project {
            None => Outcome::Refused(Error::NotFound),
            Some(p) => if !kind_matches || !p.visible { Outcome::Refused(Error::NotFound) } else { Outcome::Done(p.entity) },
        }
    }
}

/// Gives a project by its code, given whether the code parses, the project
/// found by the code's index (visible where the user may see it and both
/// owners' names), and whether its kind is the code's kind.
pub fn run<P>(code_parses: bool, project: Option<Found<P>>, kind_matches: bool) -> (res: UseCaseResult<P, Error>)
    ensures
        outcome(res) == run_outcome(code_parses, project, kind_matches),
{
    if !code_parses {
        return Err(UseCaseError::UseCase(Error::from_code_error()));
    }
    let project = match project {
        Some(p) => p,
        None => return Err(UseCaseError::UseCase(Error::NotFound)),
    };
    if !kind_matches {
        return Err(UseCaseError::UseCase(Error::NotFound));
    }
    if !project.visible {
        return Err(UseCaseError::UseCase(Error::NotFound));
    }
    Ok(project.entity)
}

/// A project the user may not see, or one whose kind is not the kind the code
/// names, is answered exactly as a code that names no project.
pub proof fn lemma_hidden_project_as_absent<P>(code_parses: bool, entity: P, visible: bool, kind_matches: bool)
    requires
        !visible || !kind_matches,
    ensures
        run_outcome(code_parses, Some(Found { entity, visible }), kind_matches) == run_outcome::<P>(code_parses, None, kind_matches),
{
}

} // verus!
