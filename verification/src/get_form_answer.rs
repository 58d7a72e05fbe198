//! Getting a form answer.
use vstd::prelude::*;

use crate::error::{outcome, Outcome, UseCaseError, UseCaseResult};
use crate::flow::{take_expected_visible, take_expected_visible_outcome, Found};

verus! {

#[derive(Debug, Clone, PartialEq, Eq, Structural)]
pub enum Error {
    NotFound,
    InsufficientPermissions,
}

/// The outcome of getting a form answer.
pub open spec fn run_outcome<A>(may_read_all_form_answers: bool, found: Option<Found<A>>) -> Outcome<A, Error> {
    if !may_read_all_form_answers {
        Outcome::Refused(Error::InsufficientPermissions)
    } else {
        take_expected_visible_outcome(found, Error::NotFound)
    }
}

/// Gives the form answer the repository found, given whether the logged-in user
/// holds the permission READ_ALL_FORM_ANSWERS, which lets the user see every form answer.
pub fn run<A>(may_read_all_form_answers: bool, found: Option<Found<A>>) -> (res: UseCaseResult<A, Error>)
    ensures
        outcome(res) == run_outcome(may_read_all_form_answers, found),
{
    if !may_read_all_form_answers {
        return Err(UseCaseError::UseCase(Error::InsufficientPermissions));
    }
    take_expected_visible(found, Error::NotFound)
}

} // verus!
