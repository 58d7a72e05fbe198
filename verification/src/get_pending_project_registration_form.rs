//! Getting a registration form that a pending project is to answer.
use vstd::prelude::*;

use crate::error::{outcome, Outcome, UseCaseError, UseCaseResult};
use crate::flow::{take_visible, visible_entity, Found};

verus! {

#[derive(Debug, Clone, PartialEq, Eq, Structural)]
pub enum Error {
    PendingProjectNotFound,
    RegistrationFormNotFound,
}

/// The outcome of getting a registration form for a pending project: the
/// form must be visible with the pending project and its query must select it.
pub open spec fn run_outcome<P, F>(pending_project: Option<Found<P>>, registration_form: Option<Found<F>>, query_selects: bool) -> Outcome<F, Error> {
    match visible_entity(pending_project) {
        None => Outcome::Refused(Error::PendingProjectNotFound),
        Some(_) => match visible_entity(registration_form) {
            None => Outcome::Refused(Error::RegistrationFormNotFound),
            Some(f) => if query_selects { Outcome::Done(f) } else { Outcome::Refused(Error::RegistrationFormNotFound) },
        },
    }
}

/// Gives a registration form for a pending project, given the pending
/// project, the form with whether it is visible with the pending project, and
/// whether the form's query selects the pending project.
pub fn run<P, F>(pending_project: Option<Found<P>>, registration_form: Option<Found<F>>, query_selects: bool) -> (res: UseCaseResult<F, Error>)
    ensures
        outcome(res) == run_outcome(pending_project, registration_form, query_selects),
{
    take_visible(pending_project, Error::PendingProjectNotFound)?;
    let form = take_visible(registration_form, Error::RegistrationFormNotFound)?;
    if !query_selects {
        return Err(UseCaseError::UseCase(Error::RegistrationFormNotFound));
    }
    Ok(form)
}

} // verus!
