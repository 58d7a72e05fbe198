//! Listing every form.
use vstd::prelude::*;

use crate::error::{Outcome, UseCaseError, UseCaseResult};
use crate::flow::{all_entities, all_entities_outcome, list_outcome, Found};

verus! {

#[derive(Debug, Clone, PartialEq, Eq, Structural)]
pub enum Error {
    InsufficientPermissions,
}

/// The outcome of listing every one of the forms.
pub open spec fn run_outcome<F>(may_read_all_forms: bool, list: Seq<Found<F>>) -> Outcome<Seq<F>, Error> {
    if !may_read_all_forms {
        Outcome::Refused(Error::InsufficientPermissions)
    } else {
        all_entities_outcome(list)
    }
}

/// Gives the forms the repository listed, given whether the logged-in user
/// holds the permission READ_ALL_FORMS, which lets the user see every one of them.
pub fn run<F>(may_read_all_forms: bool, list: Vec<Found<F>>) -> (res: UseCaseResult<Vec<F>, Error>)
    ensures
        list_outcome(res) == run_outcome(may_read_all_forms, list@),
{
    if !may_read_all_forms {
        return Err(UseCaseError::UseCase(Error::InsufficientPermissions));
    }
    all_entities(list)
}

} // verus!
