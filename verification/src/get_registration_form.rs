//! Getting a registration form.
use vstd::prelude::*;

use crate::error::{outcome, Outcome, UseCaseError, UseCaseResult};
use crate::flow::{take_expected_visible, take_expected_visible_outcome, Found};

verus! {

#[derive(Debug, Clone, PartialEq, Eq, Structural)]
pub enum Error {
    NotFound,
    InsufficientPermissions,
}

impl Error {
    /// Any refusal of the permission check is reported as missing permissions.
    pub fn from_permissions_error() -> (res: Self)
        ensures
            res is InsufficientPermissions,
    {
        Error::InsufficientPermissions
    }
}

/// The outcome of getting a registration form.
pub open spec fn run_outcome<F>(may_read_all_registration_forms: bool, found: Option<Found<F>>) -> Outcome<F, Error> {
    if !may_read_all_registration_forms {
        Outcome::Refused(Error::InsufficientPermissions)
    } else {
        take_expected_visible_outcome(found, Error::NotFound)
    }
}

/// Gives the registration form the repository found, given whether the logged-in user
/// holds the permission READ_ALL_REGISTRATION_FORMS, which lets the user see every registration form.
pub fn run<F>(may_read_all_registration_forms: bool, found: Option<Found<F>>) -> (res: UseCaseResult<F, Error>)
    ensures
        outcome(res) == run_outcome(may_read_all_registration_forms, found),
{
    if !may_read_all_registration_forms {
        return Err(UseCaseError::UseCase(Error::from_permissions_error()));
    }
    take_expected_visible(found, Error::NotFound)
}

} // verus!
