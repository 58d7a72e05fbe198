//! Listing the answers to a form.
use vstd::prelude::*;

use crate::error::{outcome, Outcome, UseCaseError, UseCaseResult};
use crate::flow::{all_entities, all_entities_outcome, list_outcome, Found};

verus! {

#[derive(Debug, Clone, PartialEq, Eq, Structural)]
pub enum Error {
    InsufficientPermissions,
    FormNotFound,
}


/// The outcome of listing the answers to a form: where there are none,
/// the form must exist and be visible.
pub open spec fn run_outcome<A>(may_read_all_answers: bool, answers: Seq<Found<A>>, form_visible: bool) -> Outcome<Seq<A>, Error> {
    if !may_read_all_answers {
        Outcome::Refused(Error::InsufficientPermissions)
    } else if answers.len() == 0 && !form_visible {
        Outcome::Refused(Error::FormNotFound)
    } else {
        all_entities_outcome(answers)
    }
}

/// Gives the answers to a form, given whether the logged-in user holds
/// the permission READ_ALL_FORM_ANSWERS, the answers listed, and whether the form
/// exists and is visible (consulted where there are no answers).
pub fn run<A>(may_read_all_answers: bool, answers: Vec<Found<A>>, form_visible: bool) -> (res: UseCaseResult<Vec<A>, Error>)
    ensures
        list_outcome(res) == run_outcome(may_read_all_answers, answers@, form_visible),
{
    if !may_read_all_answers {
        return Err(UseCaseError::UseCase(Error::InsufficientPermissions));
    }
    if answers.len() == 0 && !form_visible {
        return Err(UseCaseError::UseCase(Error::FormNotFound));
    }
    all_entities(answers)
}

} // verus!
