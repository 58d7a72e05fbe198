//! Listing the answers to a registration form.
use vstd::prelude::*;

use crate::error::{outcome, Outcome, UseCaseError, UseCaseResult};
use crate::flow::{all_entities, all_entities_outcome, list_outcome, Found};

verus! {

#[derive(Debug, Clone, PartialEq, Eq, Structural)]
pub enum Error {
    RegistrationFormNotFound,
    InsufficientPermissions,
}

impl Error {
    /// Any refusal of the permission check is reported as missing permissions.
    pub fn from_permissions_error() -> (res: Self)
        ensures
            res is InsufficientPermissions,
    {
        Error::InsufficientPermissions
    }
}

/// The outcome of listing the answers to a registration form: where there are none,
/// the registration form must exist and be visible.
pub open spec fn run_outcome<A>(may_read_all_answers: bool, answers: Seq<Found<A>>, form_visible: bool) -> Outcome<Seq<A>, Error> {
    if !may_read_all_answers {
        Outcome::Refused(Error::InsufficientPermissions)
    } else if answers.len() == 0 && !form_visible {
        Outcome::Refused(Error::RegistrationFormNotFound)
    } else {
        all_entities_outcome(answers)
    }
}

/// Gives the answers to a registration form, given whether the logged-in user holds
/// the permission READ_ALL_REGISTRATION_FORM_ANSWERS, the answers listed, and whether the registration form
/// exists and is visible (consulted where there are no answers).
pub fn run<A>(may_read_all_answers: bool, answers: Vec<Found<A>>, form_visible: bool) -> (res: UseCaseResult<Vec<A>, Error>)
    ensures
        list_outcome(res) == run_outcome(may_read_all_answers, answers@, form_visible),
{
    if !may_read_all_answers {
        return Err(UseCaseError::UseCase(Error::from_permissions_error()));
    }
    if answers.len() == 0 && !form_visible {
        return Err(UseCaseError::UseCase(Error::RegistrationFormNotFound));
    }
    all_entities(answers)
}

} // verus!
