//! Listing every file distribution.
use vstd::prelude::*;

use crate::error::{Outcome, UseCaseError, UseCaseResult};
use crate::flow::{all_entities, all_entities_outcome, list_outcome, Found};

verus! {

#[derive(Debug, Clone, PartialEq, Eq, Structural)]
pub enum Error {
    InsufficientPermissions,
}

impl Error {
    /// Any refusal of the permission check is reported as missing permissions.
    pub fn from_permissions_error() -> (res: Self)
        ensures
            res is InsufficientPermissions,
    {
        Error::InsufficientPermissions
    }
}

/// The outcome of listing every one of the file distributions.
pub open spec fn run_outcome<D>(may_read_all_file_distributions: bool, list: Seq<Found<D>>) -> Outcome<Seq<D>, Error> {
    if !may_read_all_file_distributions {
        Outcome::Refused(Error::InsufficientPermissions)
    } else {
        all_entities_outcome(list)
    }
}

/// Gives the file distributions the repository listed, given whether the logged-in user
/// holds the permission READ_ALL_FILE_DISTRIBUTIONS, which lets the user see every one of them.
pub fn run<D>(may_read_all_file_distributions: bool, list: Vec<Found<D>>) -> (res: UseCaseResult<Vec<D>, Error>)
    ensures
        list_outcome(res) == run_outcome(may_read_all_file_distributions, list@),
{
    if !may_read_all_file_distributions {
        return Err(UseCaseError::UseCase(Error::from_permissions_error()));
    }
    all_entities(list)
}

} // verus!
