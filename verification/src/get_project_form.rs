//! Getting a form that a project is to answer.
use vstd::prelude::*;

use crate::error::{outcome, Outcome, UseCaseError, UseCaseResult};
use crate::flow::{take_visible, visible_entity, Found};

verus! {

#[derive(Debug, Clone, PartialEq, Eq, Structural)]
pub enum Error {
    ProjectNotFound,
    FormNotFound,
}

/// The outcome of getting a form for a project: the form must exist, target
/// the project and be visible to the user with the project.
pub open spec fn run_outcome<P, F>(project: Option<Found<P>>, form: Option<F>, targets_project: bool, form_visible: bool) -> Outcome<F, Error> {
    match visible_entity(project) {
        None => Outcome::Refused(Error::ProjectNotFound),
        Some(_) => match form {
            None => Outcome::Refused(Error::FormNotFound),
            Some(f) => if !targets_project || !form_visible { Outcome::Refused(Error::FormNotFound) } else { Outcome::Done(f) },
        },
    }
}

/// Gives a form for a project, given the project, the form, whether the
/// form's condition selects the project, and whether the form is visible to
/// the logged-in user with the project.
pub fn run<P, F>(project: Option<Found<P>>, form: Option<F>, targets_project: bool, form_visible: bool) -> (res: UseCaseResult<F, Error>)
    ensures
        outcome(res) == run_outcome(project, form, targets_project, form_visible),
{
    take_visible(project, Error::ProjectNotFound)?;
    let form = match form {
        Some(f) => f,
        None => return Err(UseCaseError::UseCase(Error::FormNotFound)),
    };
    if !targets_project || !form_visible {
        return Err(UseCaseError::UseCase(Error::FormNotFound));
    }
    Ok(form)
}

/// A form that does not target the project, or that the user may not see
/// with it, is answered exactly as a form that does not exist.
pub proof fn lemma_hidden_form_as_absent<P, F>(project: Option<Found<P>>, form: F, targets_project: bool, form_visible: bool)
    requires
        !targets_project || !form_visible,
    ensures
        run_outcome(project, Some(form), targets_project, form_visible) == run_outcome::<P, F>(project, None, targets_project, form_visible),
{
}

} // verus!
