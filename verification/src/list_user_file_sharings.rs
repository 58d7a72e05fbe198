//! Listing the file sharings of the logged-in user.
use vstd::prelude::*;

use crate::error::UseCaseResult;
use crate::flow::{all_entities, all_entities_outcome, list_outcome, Found};

verus! {

/// Gives the sharings listed for the user, each visible to the user together
/// with its file.
pub fn run<S>(sharings: Vec<Found<S>>) -> (res: UseCaseResult<Vec<S>, std::convert::Infallible>)
    ensures
        list_outcome(res) == all_entities_outcome::<S, std::convert::Infallible>(sharings@),
{
    all_entities(sharings)
}

} // verus!
