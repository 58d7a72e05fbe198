//! Getting the project the logged-in user owns or co-owns.
use vstd::prelude::*;

use crate::error::{outcome, Outcome, UseCaseError, UseCaseResult};
use crate::flow::{require_outcome, require_visible, Found};
use crate::model::UserAssignment;

verus! {

#[derive(Debug, Clone, PartialEq, Eq, Structural)]
pub enum Error {
    NotFound,
}

/// The outcome of getting the user's project: the user must be assigned to
/// a project as owner or subowner, and the repository must hold it.
pub open spec fn run_outcome<P>(assignment: Option<UserAssignment>, project: Option<Found<P>>) -> Outcome<P, Error> {
    match assignment {
        Some(UserAssignment::ProjectOwner(_)) => require_outcome(project),
        Some(UserAssignment::ProjectSubowner(_)) => require_outcome(project),
        _ => Outcome::Refused(Error::NotFound),
    }
}

/// Gives the project of the logged-in user, given the user's assignment and
/// the project found for it (visible where the user may see it and both
/// owners' names).
pub fn run<P>(assignment: Option<UserAssignment>, project: Option<Found<P>>) -> (res: UseCaseResult<P, Error>)
    ensures
        outcome(res) == run_outcome(assignment, project),
{
    match assignment {
        Some(UserAssignment::ProjectOwner(_)) => require_visible(project),
        Some(UserAssignment::ProjectSubowner(_)) => require_visible(project),
        _ => Err(UseCaseError::UseCase(Error::NotFound)),
    }
}

} // verus!
