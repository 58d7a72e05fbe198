//! Getting a file distribution.
use vstd::prelude::*;

use crate::error::{outcome, Outcome, UseCaseError, UseCaseResult};
use crate::flow::{take_visible, take_visible_outcome, Found};

verus! {

#[derive(Debug, Clone, PartialEq, Eq, Structural)]
pub enum Error {
    InsufficientPermissions,
    NotFound,
}

impl Error {
    /// Any refusal of the permission check is reported as missing permissions.
    pub fn from_permissions_error() -> (res: Self)
        ensures
            res is InsufficientPermissions,
    {
        Error::InsufficientPermissions
    }
}

/// The outcome of getting a file distribution.
pub open spec fn run_outcome<D>(may_read_all_file_distributions: bool, found: Option<Found<D>>) -> Outcome<D, Error> {
    if !may_read_all_file_distributions {
        Outcome::Refused(Error::InsufficientPermissions)
    } else {
        take_visible_outcome(found, Error::NotFound)
    }
}

/// Gives the file distribution the repository found, given whether the logged-in user
/// holds the permission READ_ALL_FILE_DISTRIBUTIONS; one the user may not see is reported as not
/// found, like a missing one.
pub fn run<D>(may_read_all_file_distributions: bool, found: Option<Found<D>>) -> (res: UseCaseResult<D, Error>)
    ensures
        outcome(res) == run_outcome(may_read_all_file_distributions, found),
{
    if !may_read_all_file_distributions {
        return Err(UseCaseError::UseCase(Error::from_permissions_error()));
    }
    take_visible(found, Error::NotFound)
}

} // verus!
