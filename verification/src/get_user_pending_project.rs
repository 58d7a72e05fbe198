//! Getting the pending project the logged-in user owns.
use vstd::prelude::*;

use crate::error::{outcome, Outcome, UseCaseError, UseCaseResult};
use crate::flow::{require_outcome, require_visible, Found};
use crate::model::UserAssignment;

verus! {

#[derive(Debug, Clone, PartialEq, Eq, Structural)]
pub enum Error {
    NotFound,
}

/// The outcome of getting the user's pending project.
pub open spec fn run_outcome<P>(assignment: Option<UserAssignment>, pending_project: Option<Found<P>>) -> Outcome<P, Error> {
    match assignment {
        Some(UserAssignment::PendingProjectOwner(_)) => require_outcome(pending_project),
        _ => Outcome::Refused(Error::NotFound),
    }
}

/// Gives the pending project of the logged-in user, given the user's
/// assignment and the pending project found for it.
pub fn run<P>(assignment: Option<UserAssignment>, pending_project: Option<Found<P>>) -> (res: UseCaseResult<P, Error>)
    ensures
        outcome(res) == run_outcome(assignment, pending_project),
{
    match assignment {
        Some(UserAssignment::PendingProjectOwner(_)) => require_visible(pending_project),
        _ => Err(UseCaseError::UseCase(Error::NotFound)),
    }
}

} // verus!
