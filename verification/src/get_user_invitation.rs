//! Getting a user invitation.
use vstd::prelude::*;

use crate::error::{outcome, Outcome, UseCaseError, UseCaseResult};
use crate::flow::{take_expected_visible, take_expected_visible_outcome, Found};

verus! {

#[derive(Debug, Clone, PartialEq, Eq, Structural)]
pub enum Error {
    NotFound,
    InsufficientPermissions,
}

impl Error {
    /// Any refusal of the permission check is reported as missing permissions.
    pub fn from_permissions_error() -> (res: Self)
        ensures
            res is InsufficientPermissions,
    {
        Error::InsufficientPermissions
    }
}

/// The outcome of getting a user invitation.
pub open spec fn run_outcome<I>(may_read_all_user_invitations: bool, found: Option<Found<I>>) -> Outcome<I, Error> {
    if !may_read_all_user_invitations {
        Outcome::Refused(Error::InsufficientPermissions)
    } else {
        take_expected_visible_outcome(found, Error::NotFound)
    }
}

/// Gives the user invitation the repository found, given whether the logged-in user
/// holds the permission READ_ALL_USER_INVITATIONS, which lets the user see every user invitation.
pub fn run<I>(may_read_all_user_invitations: bool, found: Option<Found<I>>) -> (res: UseCaseResult<I, Error>)
    ensures
        outcome(res) == run_outcome(may_read_all_user_invitations, found),
{
    if !may_read_all_user_invitations {
        return Err(UseCaseError::UseCase(Error::from_permissions_error()));
    }
    take_expected_visible(found, Error::NotFound)
}

} // verus!
