//! Getting a project by its display id.
use vstd::prelude::*;

use crate::error::{outcome, Outcome, UseCaseError, UseCaseResult};
use crate::flow::{take_visible, take_visible_outcome, Found};

verus! {

#[derive(Debug, Clone, PartialEq, Eq, Structural)]
pub enum Error {
    InvalidDisplayId,
    NotFound,
}

/// The outcome of getting a project by its display id.
pub open spec fn run_outcome<P>(display_id_valid: bool, project: Option<Found<P>>) -> Outcome<P, Error> {
    if !display_id_valid {
        Outcome::Refused(Error::InvalidDisplayId)
    } else {
        take_visible_outcome(project, Error::NotFound)
    }
}

/// Gives a project by its display id, given whether the display id is valid
/// and the project found (visible where the user may see it and its owner's names).
pub fn run<P>(display_id_valid: bool, project: Option<Found<P>>) -> (res: UseCaseResult<P, Error>)
    ensures
        outcome(res) == run_outcome(display_id_valid, project),
{
    if !display_id_valid {
        return Err(UseCaseError::UseCase(Error::InvalidDisplayId));
    }
    take_visible(project, Error::NotFound)
}

} // verus!
