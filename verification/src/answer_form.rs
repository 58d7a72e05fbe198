//! Answering a form on behalf of a project.
use vstd::prelude::*;

use crate::domain::{CheckAnswerErrorKind, CheckAnswerItemErrorKind, FormAnswerErrorKind};
use crate::error::{keeps_internal, outcome, Outcome, UseCaseError, UseCaseResult};
use crate::flow::{visible_entity, Found};
use crate::interface::form::{check_answer_error_of, check_answer_item_error_of, to_check_answer_item_error, CheckAnswerError};
use crate::interface::form_answer::{FormAnswerItemsError, InputFormAnswerItem};
use crate::model::{FormId, FormItemId, ProjectId};

verus! {

#[derive(Debug, Clone)]
pub struct Input {
    pub project_id: ProjectId,
    pub form_id: FormId,
    pub items: Vec<InputFormAnswerItem>,
}

#[derive(Debug, Clone, Copy, PartialEq, Eq, Structural)]
pub enum Error {
    ProjectNotFound,
    FormNotFound,
    OutOfAnswerPeriod,
    AlreadyAnswered,
    InvalidItems(FormAnswerItemsError),
    InvalidAnswer(CheckAnswerError),
}

impl Error {
    pub fn from_items_error(err: FormAnswerItemsError) -> (res: Self)
        ensures
            res == Error::InvalidItems(err),
    {
        Error::InvalidItems(err)
    }

    /// The error for each reason the entity layer refuses the answer; a form
    /// that does not target the project is reported as not found.
    pub open spec fn answer_error_of(kind: FormAnswerErrorKind) -> Error {
        match kind {
            FormAnswerErrorKind::OutOfAnswerPeriod => Error::OutOfAnswerPeriod,
            FormAnswerErrorKind::AlreadyAnswered => Error::AlreadyAnswered,
            FormAnswerErrorKind::NotTargeted => Error::FormNotFound,
            FormAnswerErrorKind::MismatchedItemsLength => Error::InvalidAnswer(CheckAnswerError::MismatchedItemsLength),
            FormAnswerErrorKind::MismatchedItemId { expected, got } => Error::InvalidAnswer(CheckAnswerError::MismatchedItemId { expected, got }),
            FormAnswerErrorKind::InvalidItem { id, kind } => Error::InvalidAnswer(CheckAnswerError::InvalidAnswerItem {
                item_id: id,
                item_error: check_answer_item_error_of(kind),
            }),
        }
    }

    pub fn from_answer_error(kind: FormAnswerErrorKind) -> (res: Self)
        ensures
            res == Self::answer_error_of(kind),
    {
        match kind {
            FormAnswerErrorKind::OutOfAnswerPeriod => Error::OutOfAnswerPeriod,
            FormAnswerErrorKind::AlreadyAnswered => Error::AlreadyAnswered,
            FormAnswerErrorKind::NotTargeted => Error::FormNotFound,
            FormAnswerErrorKind::MismatchedItemsLength => Error::InvalidAnswer(CheckAnswerError::MismatchedItemsLength),
            FormAnswerErrorKind::MismatchedItemId { expected, got } => Error::InvalidAnswer(CheckAnswerError::MismatchedItemId { expected, got }),
            FormAnswerErrorKind::InvalidItem { id, kind } => Error::InvalidAnswer(CheckAnswerError::InvalidAnswerItem {
                item_id: id,
                item_error: to_check_answer_item_error(kind),
            }),
        }
    }
}

/// The outcome of answering a form: the answer period is checked before the
/// answer items, for the convenience of clients.
pub open spec fn run_outcome<P, F, I, A>(
    project: Option<Found<P>>,
    form: Option<Found<F>>,
    in_answer_period: bool,
    items: UseCaseResult<I, FormAnswerItemsError>,
    answer: UseCaseResult<Found<A>, FormAnswerErrorKind>,
) -> Outcome<A, Error> {
    if visible_entity(project) is None {
        Outcome::Refused(Error::ProjectNotFound)
    } else if visible_entity(form) is None {
        Outcome::Refused(Error::FormNotFound)
    } else if !in_answer_period {
        Outcome::Refused(Error::OutOfAnswerPeriod)
    } else {
        match outcome(items) {
            Outcome::Refused(e) => Outcome::Refused(Error::InvalidItems(e)),
            Outcome::Failed => Outcome::Failed,
            Outcome::Done(_) => match outcome(answer) {
                Outcome::Refused(k) => Outcome::Refused(Error::answer_error_of(k)),
                Outcome::Failed => Outcome::Failed,
                Outcome::Done(a) => if a.visible { Outcome::Done(a.entity) } else { Outcome::Failed },
            },
        }
    }
}

/// Answers a form on behalf of a project, given the project, the form (with
/// whether it is visible with the project), whether its answer period
/// contains the present time, the answer items as decided, and the answer the
/// entity layer made of them or why it refused.
pub fn run<P, F, I, A>(
    project: Option<Found<P>>,
    form: Option<Found<F>>,
    in_answer_period: bool,
    items: UseCaseResult<I, FormAnswerItemsError>,
    answer: UseCaseResult<Found<A>, FormAnswerErrorKind>,
) -> (res: UseCaseResult<A, Error>)
    ensures
        outcome(res) == run_outcome(project, form, in_answer_period, items, answer),
        visible_entity(project) is Some && visible_entity(form) is Some && in_answer_period
            ==> keeps_internal(items, res),
        visible_entity(project) is Some && visible_entity(form) is Some && in_answer_period && items is Ok
            ==> keeps_internal(answer, res),
{
    crate::flow::take_visible(project, Error::ProjectNotFound)?;
    crate::flow::take_visible(form, Error::FormNotFound)?;
    if !in_answer_period {
        return Err(UseCaseError::UseCase(Error::OutOfAnswerPeriod));
    }
    match items {
        Ok(_) => {},
        Err(err) => return Err(err.map_use_case(|e: FormAnswerItemsError| -> (r: Error) ensures r == Error::InvalidItems(e) { Error::from_items_error(e) })),
    }
    let answer = match answer {
        Ok(a) => a,
        Err(UseCaseError::UseCase(k)) => return Err(UseCaseError::UseCase(Error::from_answer_error(k))),
        Err(UseCaseError::Internal(e)) => return Err(UseCaseError::Internal(e)),
    };
    crate::flow::expect_visible(answer)
}

/// A change that answering a form makes to the repositories.
#[derive(Debug, Clone, Copy, PartialEq, Eq, Structural)]
pub enum Effect {
    /// Store the answer the entity layer made.
    StoreAnswer,
}

/// The changes answering a form makes: the answer is stored where the
/// project and the form are found, the form is in its answer period, the
/// items are taken and the entity layer made the answer; its visibility is
/// checked only after it is stored.
pub open spec fn answer_effects<P, F, I, A>(
    project: Option<Found<P>>,
    form: Option<Found<F>>,
    in_answer_period: bool,
    items: UseCaseResult<I, FormAnswerItemsError>,
    answer: UseCaseResult<Found<A>, FormAnswerErrorKind>,
) -> Seq<Effect> {
    if visible_entity(project) is Some && visible_entity(form) is Some && in_answer_period && items is Ok && answer is Ok {
        seq![Effect::StoreAnswer]
    } else {
        seq![]
    }
}

/// Gives the changes answering a form makes, from the same answers `run`
/// decides on.
pub fn effects<P, F, I, A>(
    project: &Option<Found<P>>,
    form: &Option<Found<F>>,
    in_answer_period: bool,
    items: &UseCaseResult<I, FormAnswerItemsError>,
    answer: &UseCaseResult<Found<A>, FormAnswerErrorKind>,
) -> (res: Vec<Effect>)
    ensures
        res@ == answer_effects(*project, *form, in_answer_period, *items, *answer),
{
    let mut out: Vec<Effect> = Vec::new();
    let project_found = match project {
        Some(p) => p.visible,
        None => false,
    };
    let form_found = match form {
        Some(f) => f.visible,
        None => false,
    };
    if project_found && form_found && in_answer_period && items.is_ok() && answer.is_ok() {
        out.push(Effect::StoreAnswer);
    }
    out
}

/// The answer is stored exactly where answering is not refused.
pub proof fn lemma_answer_stored_unless_refused<P, F, I, A>(
    project: Option<Found<P>>,
    form: Option<Found<F>>,
    in_answer_period: bool,
    items: UseCaseResult<I, FormAnswerItemsError>,
    answer: UseCaseResult<Found<A>, FormAnswerErrorKind>,
)
    requires
        !(items matches Err(UseCaseError::Internal(_))),
        !(answer matches Err(UseCaseError::Internal(_))),
    ensures
        answer_effects(project, form, in_answer_period, items, answer).len() == 1
            <==> !(run_outcome(project, form, in_answer_period, items, answer) is Refused),
{
}

/// What is answered is read back: where answering gives an answer, and the
/// repository later returns the stored answer, with the same verdict on its
/// visibility, to a user who sees the project, getting the project's answer
/// gives the same answer.
pub proof fn lemma_answer_read_back<P, F, I, A, Q>(
    project: Option<Found<P>>,
    form: Option<Found<F>>,
    in_answer_period: bool,
    items: UseCaseResult<I, FormAnswerItemsError>,
    stored: Found<A>,
    owner: Option<Found<Q>>,
    form_visible: bool,
)
    requires
        run_outcome(project, form, in_answer_period, items, Ok(stored)) is Done,
        visible_entity(owner) is Some,
    ensures
        run_outcome(project, form, in_answer_period, items, Ok(stored)) == Outcome::<A, Error>::Done(stored.entity),
        crate::get_project_form_answer::run_outcome(owner, Some(stored), form_visible)
            == Outcome::<A, crate::get_project_form_answer::Error>::Done(stored.entity),
{
}

/// Where the project and the form are found and the form is in its answer
/// period, a refusal of the entity layer for one invalid answer item is
/// reported as an invalid answer naming that item and its failure, exactly
/// as the general answer check reports the same failure; two different
/// refusals of the entity layer are never reported alike.
pub proof fn lemma_answer_refusal_reported<P, F, I, A>(
    project: Option<Found<P>>,
    form: Option<Found<F>>,
    items: I,
    id: FormItemId,
    kind: CheckAnswerItemErrorKind,
    k1: FormAnswerErrorKind,
    k2: FormAnswerErrorKind,
)
    requires
        visible_entity(project) is Some,
        visible_entity(form) is Some,
    ensures
        run_outcome(project, form, true, Ok::<I, UseCaseError<FormAnswerItemsError>>(items),
            Err::<Found<A>, UseCaseError<FormAnswerErrorKind>>(UseCaseError::UseCase(FormAnswerErrorKind::InvalidItem { id, kind })))
            == Outcome::<A, Error>::Refused(Error::InvalidAnswer(check_answer_error_of(CheckAnswerErrorKind::Item(id, kind)))),
        run_outcome(project, form, true, Ok::<I, UseCaseError<FormAnswerItemsError>>(items),
            Err::<Found<A>, UseCaseError<FormAnswerErrorKind>>(UseCaseError::UseCase(k1)))
            == run_outcome(project, form, true, Ok::<I, UseCaseError<FormAnswerItemsError>>(items),
            Err::<Found<A>, UseCaseError<FormAnswerErrorKind>>(UseCaseError::UseCase(k2)))
            ==> k1 == k2,
        run_outcome(project, form, true, Ok::<I, UseCaseError<FormAnswerItemsError>>(items),
            Err::<Found<A>, UseCaseError<FormAnswerErrorKind>>(UseCaseError::UseCase(FormAnswerErrorKind::AlreadyAnswered)))
            == Outcome::<A, Error>::Refused(Error::AlreadyAnswered),
        run_outcome(project, form, true, Ok::<I, UseCaseError<FormAnswerItemsError>>(items),
            Err::<Found<A>, UseCaseError<FormAnswerErrorKind>>(UseCaseError::UseCase(FormAnswerErrorKind::OutOfAnswerPeriod)))
            == Outcome::<A, Error>::Refused(Error::OutOfAnswerPeriod),
        run_outcome(project, form, true, Ok::<I, UseCaseError<FormAnswerItemsError>>(items),
            Err::<Found<A>, UseCaseError<FormAnswerErrorKind>>(UseCaseError::UseCase(FormAnswerErrorKind::NotTargeted)))
            == Outcome::<A, Error>::Refused(Error::FormNotFound),
{
}

} // verus!
