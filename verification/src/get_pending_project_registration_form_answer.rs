//! Getting the answer of a pending project to a registration form.
use vstd::prelude::*;

use crate::error::{outcome, Outcome, UseCaseError, UseCaseResult};
use crate::flow::{take_visible, visible_entity, Found};

verus! {

#[derive(Debug, Clone, PartialEq, Eq, Structural)]
pub enum Error {
    PendingProjectNotFound,
    RegistrationFormNotFound,
    RegistrationFormAnswerNotFound,
}

/// The outcome of getting the answer of a pending project. Where there is no answer,
/// the registration form decides: if it exists and is visible, the answer is reported
/// as not found, otherwise the registration form; an answer the user may not see is
/// reported as not found.
pub open spec fn run_outcome<P, A>(owner: Option<Found<P>>, answer: Option<Found<A>>, form_visible: bool) -> Outcome<A, Error> {
    match visible_entity(owner) {
        None => Outcome::Refused(Error::PendingProjectNotFound),
        Some(_) => match answer {
            None => if form_visible { Outcome::Refused(Error::RegistrationFormAnswerNotFound) } else { Outcome::Refused(Error::RegistrationFormNotFound) },
            Some(a) => if a.visible { Outcome::Done(a.entity) } else { Outcome::Refused(Error::RegistrationFormAnswerNotFound) },
        },
    }
}

/// Gives the answer of a pending project, given the pending project, its answer, and whether the
/// registration form exists and is visible to the logged-in user (consulted where there is
/// no answer).
pub fn run<P, A>(owner: Option<Found<P>>, answer: Option<Found<A>>, form_visible: bool) -> (res: UseCaseResult<A, Error>)
    ensures
        outcome(res) == run_outcome(owner, answer, form_visible),
{
    take_visible(owner, Error::PendingProjectNotFound)?;
    match answer {
        None => {
            if form_visible {
                Err(UseCaseError::UseCase(Error::RegistrationFormAnswerNotFound))
            } else {
                Err(UseCaseError::UseCase(Error::RegistrationFormNotFound))
            }
        },
        Some(a) => {
            if a.visible {
                Ok(a.entity)
            } else {
                Err(UseCaseError::UseCase(Error::RegistrationFormAnswerNotFound))
            }
        },
    }
}

} // verus!
