//! Listing every project.
use vstd::prelude::*;

use crate::error::{Outcome, UseCaseError, UseCaseResult};
use crate::flow::{all_entities, all_entities_outcome, list_outcome, Found};

verus! {

#[derive(Debug, Clone, PartialEq, Eq, Structural)]
pub enum Error {
    InsufficientPermissions,
}

/// The outcome of listing every one of the projects.
pub open spec fn run_outcome<P>(may_read_all_projects: bool, list: Seq<Found<P>>) -> Outcome<Seq<P>, Error> {
    if !may_read_all_projects {
        Outcome::Refused(Error::InsufficientPermissions)
    } else {
        all_entities_outcome(list)
    }
}

/// Gives the projects the repository listed, given whether the logged-in user
/// holds the permission READ_ALL_PROJECTS, which lets the user see every one of them.
pub fn run<P>(may_read_all_projects: bool, list: Vec<Found<P>>) -> (res: UseCaseResult<Vec<P>, Error>)
    ensures
        list_outcome(res) == run_outcome(may_read_all_projects, list@),
{
    if !may_read_all_projects {
        return Err(UseCaseError::UseCase(Error::InsufficientPermissions));
    }
    all_entities(list)
}

} // verus!
