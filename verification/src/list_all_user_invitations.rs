//! Listing every user invitation.
use vstd::prelude::*;

use crate::error::{Outcome, UseCaseError, UseCaseResult};
use crate::flow::{all_entities, all_entities_outcome, list_outcome, Found};

verus! {

#[derive(Debug, Clone, PartialEq, Eq, Structural)]
pub enum Error {
    InsufficientPermissions,
}

impl Error {
    /// Any refusal of the permission check is reported as missing permissions.
    pub fn from_permissions_error() -> (res: Self)
        ensures
            res is InsufficientPermissions,
    {
        Error::InsufficientPermissions
    }
}

/// The outcome of listing every one of the user invitations.
pub open spec fn run_outcome<I>(may_read_all_user_invitations: bool, list: Seq<Found<I>>) -> Outcome<Seq<I>, Error> {
    if !may_read_all_user_invitations {
        Outcome::Refused(Error::InsufficientPermissions)
    } else {
        all_entities_outcome(list)
    }
}

/// Gives the user invitations the repository listed, given whether the logged-in user
/// holds the permission READ_ALL_USER_INVITATIONS, which lets the user see every one of them.
pub fn run<I>(may_read_all_user_invitations: bool, list: Vec<Found<I>>) -> (res: UseCaseResult<Vec<I>, Error>)
    ensures
        list_outcome(res) == run_outcome(may_read_all_user_invitations, list@),
{
    if !may_read_all_user_invitations {
        return Err(UseCaseError::UseCase(Error::from_permissions_error()));
    }
    all_entities(list)
}

} // verus!
