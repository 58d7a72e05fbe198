//! Getting a pending project.
use vstd::prelude::*;

use crate::error::{outcome, UseCaseResult};
use crate::flow::{take_visible, take_visible_outcome, Found};

verus! {

#[derive(Debug, Clone, PartialEq, Eq, Structural)]
pub enum Error {
    NotFound,
}

/// Gives the pending project the repository found, where the logged-in user may see
/// it; one the user may not see is reported as not found, like a missing one.
pub fn run<P>(found: Option<Found<P>>) -> (res: UseCaseResult<P, Error>)
    ensures
        outcome(res) == take_visible_outcome(found, Error::NotFound),
{
    take_visible(found, Error::NotFound)
}

} // verus!
