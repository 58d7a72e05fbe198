//! Getting the answer of a project to a form.
use vstd::prelude::*;

use crate::error::{outcome, Outcome, UseCaseError, UseCaseResult};
use crate::flow::{take_visible, visible_entity, Found};

verus! {

#[derive(Debug, Clone, PartialEq, Eq, Structural)]
pub enum Error {
    ProjectNotFound,
    FormNotFound,
    FormAnswerNotFound,
}

/// The outcome of getting the answer of a project. Where there is no answer,
/// the form decides: if it exists and is visible, the answer is reported
/// as not found, otherwise the form; an answer the user may not see is
/// reported as not found.
pub open spec fn run_outcome<P, A>(owner: Option<Found<P>>, answer: Option<Found<A>>, form_visible: bool) -> Outcome<A, Error> {
    match visible_entity(owner) {
        None => Outcome::Refused(Error::ProjectNotFound),
        Some(_) => match answer {
            None => if form_visible { Outcome::Refused(Error::FormAnswerNotFound) } else { Outcome::Refused(Error::FormNotFound) },
            Some(a) => if a.visible { Outcome::Done(a.entity) } else { Outcome::Refused(Error::FormAnswerNotFound) },
        },
    }
}

/// Gives the answer of a project, given the project, its answer, and whether the
/// form exists and is visible to the logged-in user (consulted where there is
/// no answer).
pub fn run<P, A>(owner: Option<Found<P>>, answer: Option<Found<A>>, form_visible: bool) -> (res: UseCaseResult<A, Error>)
    ensures
        outcome(res) == run_outcome(owner, answer, form_visible),
{
    take_visible(owner, Error::ProjectNotFound)?;
    match answer {
        None => {
            if form_visible {
                Err(UseCaseError::UseCase(Error::FormAnswerNotFound))
            } else {
                Err(UseCaseError::UseCase(Error::FormNotFound))
            }
        },
        Some(a) => {
            if a.visible {
                Ok(a.entity)
            } else {
                Err(UseCaseError::UseCase(Error::FormAnswerNotFound))
            }
        },
    }
}

} // verus!
