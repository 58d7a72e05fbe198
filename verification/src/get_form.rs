//! Getting a form.
use vstd::prelude::*;

use crate::error::{outcome, Outcome, UseCaseError, UseCaseResult};
use crate::flow::{take_expected_visible, take_expected_visible_outcome, Found};

verus! {

#[derive(Debug, Clone, PartialEq, Eq, Structural)]
pub enum Error {
    NotFound,
    InsufficientPermissions,
}

/// The outcome of getting a form.
pub open spec fn run_outcome<F>(may_read_all_forms: bool, found: Option<Found<F>>) -> Outcome<F, Error> {
    if !may_read_all_forms {
        Outcome::Refused(Error::InsufficientPermissions)
    } else {
        take_expected_visible_outcome(found, Error::NotFound)
    }
}

/// Gives the form the repository found, given whether the logged-in user
/// holds the permission READ_ALL_FORMS, which lets the user see every form.
pub fn run<F>(may_read_all_forms: bool, found: Option<Found<F>>) -> (res: UseCaseResult<F, Error>)
    ensures
        outcome(res) == run_outcome(may_read_all_forms, found),
{
    if !may_read_all_forms {
        return Err(UseCaseError::UseCase(Error::InsufficientPermissions));
    }
    take_expected_visible(found, Error::NotFound)
}

} // verus!
