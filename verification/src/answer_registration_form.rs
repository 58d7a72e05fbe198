//! Answering a registration form on behalf of a pending project.
use vstd::prelude::*;

use crate::domain::{CheckAnswerErrorKind, CheckAnswerItemErrorKind, RegistrationFormAnswerErrorKind};
use crate::error::{keeps_internal, outcome, Outcome, UseCaseError, UseCaseResult};
use crate::flow::{visible_entity, Found};
use crate::interface::form::{check_answer_error_of, check_answer_item_error_of, to_check_answer_item_error, CheckAnswerError};
use crate::interface::form_answer::{FormAnswerItemsError, InputFormAnswerItem};
use crate::model::{FormItemId, PendingProjectId, RegistrationFormId};

verus! {

#[derive(Debug, Clone)]
pub struct Input {
    pub pending_project_id: PendingProjectId,
    pub registration_form_id: RegistrationFormId,
    pub items: Vec<InputFormAnswerItem>,
}

#[derive(Debug, Clone, Copy, PartialEq, Eq, Structural)]
pub enum Error {
    PendingProjectNotFound,
    RegistrationFormNotFound,
    AlreadyAnswered,
    OutOfProjectCreationPeriod,
    InvalidItems(FormAnswerItemsError),
    InvalidAnswer(CheckAnswerError),
    InsufficientPermissions,
}

impl Error {
    /// Any refusal of the permission check is reported as missing permissions.
    pub fn from_permissions_error() -> (res: Self)
        ensures
            res is InsufficientPermissions,
    {
        Error::InsufficientPermissions
    }

    pub fn from_items_error(err: FormAnswerItemsError) -> (res: Self)
        ensures
            res == Error::InvalidItems(err),
    {
        Error::InvalidItems(err)
    }

    /// The error for each reason the entity layer refuses the answer; a form
    /// that does not target the pending project is reported as not found.
    pub open spec fn answer_error_of(kind: RegistrationFormAnswerErrorKind) -> Error {
        match kind {
            RegistrationFormAnswerErrorKind::NotTargeted => Error::RegistrationFormNotFound,
            RegistrationFormAnswerErrorKind::AlreadyAnswered => Error::AlreadyAnswered,
            RegistrationFormAnswerErrorKind::MismatchedItemsLength => Error::InvalidAnswer(CheckAnswerError::MismatchedItemsLength),
            RegistrationFormAnswerErrorKind::MismatchedItemId { expected, got } => Error::InvalidAnswer(CheckAnswerError::MismatchedItemId { expected, got }),
            RegistrationFormAnswerErrorKind::InvalidItem { id, kind } => Error::InvalidAnswer(CheckAnswerError::InvalidAnswerItem {
                item_id: id,
                item_error: check_answer_item_error_of(kind),
            }),
            RegistrationFormAnswerErrorKind::OutOfProjectCreationPeriod => Error::OutOfProjectCreationPeriod,
        }
    }

    pub fn from_answer_error(kind: RegistrationFormAnswerErrorKind) -> (res: Self)
        ensures
            res == Self::answer_error_of(kind),
    {
        match kind {
            RegistrationFormAnswerErrorKind::NotTargeted => Error::RegistrationFormNotFound,
            RegistrationFormAnswerErrorKind::AlreadyAnswered => Error::AlreadyAnswered,
            RegistrationFormAnswerErrorKind::MismatchedItemsLength => Error::InvalidAnswer(CheckAnswerError::MismatchedItemsLength),
            RegistrationFormAnswerErrorKind::MismatchedItemId { expected, got } => Error::InvalidAnswer(CheckAnswerError::MismatchedItemId { expected, got }),
            RegistrationFormAnswerErrorKind::InvalidItem { id, kind } => Error::InvalidAnswer(CheckAnswerError::InvalidAnswerItem {
                item_id: id,
                item_error: to_check_answer_item_error(kind),
            }),
            RegistrationFormAnswerErrorKind::OutOfProjectCreationPeriod => Error::OutOfProjectCreationPeriod,
        }
    }
}

/// The outcome of answering a registration form.
pub open spec fn run_outcome<P, F, I, A>(
    may_answer_and_share: bool,
    pending_project: Option<Found<P>>,
    registration_form: Option<Found<F>>,
    items: UseCaseResult<I, FormAnswerItemsError>,
    answer: UseCaseResult<Found<A>, RegistrationFormAnswerErrorKind>,
) -> Outcome<A, Error> {
    if !may_answer_and_share {
        Outcome::Refused(Error::InsufficientPermissions)
    } else if visible_entity(pending_project) is None {
        Outcome::Refused(Error::PendingProjectNotFound)
    } else if visible_entity(registration_form) is None {
        Outcome::Refused(Error::RegistrationFormNotFound)
    } else {
        match outcome(items) {
            Outcome::Refused(e) => Outcome::Refused(Error::InvalidItems(e)),
            Outcome::Failed => Outcome::Failed,
            Outcome::Done(_) => match outcome(answer) {
                Outcome::Refused(k) => Outcome::Refused(Error::answer_error_of(k)),
                Outcome::Failed => Outcome::Failed,
                Outcome::Done(a) => if a.visible { Outcome::Done(a.entity) } else { Outcome::Failed },
            },
        }
    }
}

/// Answers a registration form on behalf of a pending project, given whether
/// the user holds both the permissions to answer registration forms and to
/// share files, the pending project, the registration form (with whether it
/// is visible with the pending project), the answer items as decided, and the
/// answer the entity layer made of them or why it refused.
pub fn run<P, F, I, A>(
    may_answer_and_share: bool,
    pending_project: Option<Found<P>>,
    registration_form: Option<Found<F>>,
    items: UseCaseResult<I, FormAnswerItemsError>,
    answer: UseCaseResult<Found<A>, RegistrationFormAnswerErrorKind>,
) -> (res: UseCaseResult<A, Error>)
    ensures
        outcome(res) == run_outcome(may_answer_and_share, pending_project, registration_form, items, answer),
        may_answer_and_share && visible_entity(pending_project) is Some && visible_entity(registration_form) is Some
            ==> keeps_internal(items, res),
        may_answer_and_share && visible_entity(pending_project) is Some && visible_entity(registration_form) is Some
            && items is Ok ==> keeps_internal(answer, res),
{
    if !may_answer_and_share {
        return Err(UseCaseError::UseCase(Error::from_permissions_error()));
    }
    crate::flow::take_visible(pending_project, Error::PendingProjectNotFound)?;
    crate::flow::take_visible(registration_form, Error::RegistrationFormNotFound)?;
    match items {
        Ok(_) => {},
        Err(UseCaseError::UseCase(e)) => return Err(UseCaseError::UseCase(Error::from_items_error(e))),
        Err(UseCaseError::Internal(e)) => return Err(UseCaseError::Internal(e)),
    }
    let answer = match answer {
        Ok(a) => a,
        Err(UseCaseError::UseCase(k)) => return Err(UseCaseError::UseCase(Error::from_answer_error(k))),
        Err(UseCaseError::Internal(e)) => return Err(UseCaseError::Internal(e)),
    };
    crate::flow::expect_visible(answer)
}

/// A change that answering a registration form makes to the repositories.
#[derive(Debug, Clone, Copy, PartialEq, Eq, Structural)]
pub enum Effect {
    /// Store the answer the entity layer made.
    StoreAnswer,
}

/// The changes answering a registration form makes: the answer is stored
/// where the user may answer, the pending project and the registration form
/// are found, the items are taken and the entity layer made the answer; its
/// visibility is checked only after it is stored.
pub open spec fn answer_effects<P, F, I, A>(
    may_answer_and_share: bool,
    pending_project: Option<Found<P>>,
    registration_form: Option<Found<F>>,
    items: UseCaseResult<I, FormAnswerItemsError>,
    answer: UseCaseResult<Found<A>, RegistrationFormAnswerErrorKind>,
) -> Seq<Effect> {
    if may_answer_and_share && visible_entity(pending_project) is Some && visible_entity(registration_form) is Some
        && items is Ok && answer is Ok {
        seq![Effect::StoreAnswer]
    } else {
        seq![]
    }
}

/// Gives the changes answering a registration form makes, from the same
/// answers `run` decides on.
pub fn effects<P, F, I, A>(
    may_answer_and_share: bool,
    pending_project: &Option<Found<P>>,
    registration_form: &Option<Found<F>>,
    items: &UseCaseResult<I, FormAnswerItemsError>,
    answer: &UseCaseResult<Found<A>, RegistrationFormAnswerErrorKind>,
) -> (res: Vec<Effect>)
    ensures
        res@ == answer_effects(may_answer_and_share, *pending_project, *registration_form, *items, *answer),
{
    let mut out: Vec<Effect> = Vec::new();
    let pending_found = match pending_project {
        Some(p) => p.visible,
        None => false,
    };
    let form_found = match registration_form {
        Some(f) => f.visible,
        None => false,
    };
    if may_answer_and_share && pending_found && form_found && items.is_ok() && answer.is_ok() {
        out.push(Effect::StoreAnswer);
    }
    out
}

/// The answer is stored exactly where answering is not refused.
pub proof fn lemma_answer_stored_unless_refused<P, F, I, A>(
    may_answer_and_share: bool,
    pending_project: Option<Found<P>>,
    registration_form: Option<Found<F>>,
    items: UseCaseResult<I, FormAnswerItemsError>,
    answer: UseCaseResult<Found<A>, RegistrationFormAnswerErrorKind>,
)
    requires
        !(items matches Err(UseCaseError::Internal(_))),
        !(answer matches Err(UseCaseError::Internal(_))),
    ensures
        answer_effects(may_answer_and_share, pending_project, registration_form, items, answer).len() == 1
            <==> !(run_outcome(may_answer_and_share, pending_project, registration_form, items, answer) is Refused),
{
}

/// A registration form is reported as not found only where it is missing or
/// hidden, or where the entity layer finds that it does not target the
/// pending project; in particular an answer given a second time is never
/// reported so.
pub proof fn lemma_form_not_found_only_when_missing<P, F, I, A>(
    may_answer_and_share: bool,
    pending_project: Option<Found<P>>,
    registration_form: Option<Found<F>>,
    items: UseCaseResult<I, FormAnswerItemsError>,
    answer: UseCaseResult<Found<A>, RegistrationFormAnswerErrorKind>,
)
    ensures
        run_outcome(may_answer_and_share, pending_project, registration_form, items, answer)
            == Outcome::<A, Error>::Refused(Error::RegistrationFormNotFound)
            ==> visible_entity(registration_form) is None
                || answer == Err::<Found<A>, UseCaseError<RegistrationFormAnswerErrorKind>>(
                    UseCaseError::UseCase(RegistrationFormAnswerErrorKind::NotTargeted)),
{
}

/// Where the user may answer, and the pending project and the form are
/// found, each refusal of the entity layer is reported under its own name:
/// two different refusals are never reported alike, an answer given a
/// second time is reported as already answered, and one outside the project
/// creation period as such.
pub proof fn lemma_answer_refusals_reported<P, F, I, A>(
    pending_project: Option<Found<P>>,
    registration_form: Option<Found<F>>,
    items: I,
    k1: RegistrationFormAnswerErrorKind,
    k2: RegistrationFormAnswerErrorKind,
)
    requires
        visible_entity(pending_project) is Some,
        visible_entity(registration_form) is Some,
    ensures
        run_outcome(true, pending_project, registration_form, Ok::<I, UseCaseError<FormAnswerItemsError>>(items),
            Err::<Found<A>, UseCaseError<RegistrationFormAnswerErrorKind>>(UseCaseError::UseCase(k1)))
            == run_outcome(true, pending_project, registration_form, Ok::<I, UseCaseError<FormAnswerItemsError>>(items),
            Err::<Found<A>, UseCaseError<RegistrationFormAnswerErrorKind>>(UseCaseError::UseCase(k2)))
            ==> k1 == k2,
        run_outcome(true, pending_project, registration_form, Ok::<I, UseCaseError<FormAnswerItemsError>>(items),
            Err::<Found<A>, UseCaseError<RegistrationFormAnswerErrorKind>>(UseCaseError::UseCase(RegistrationFormAnswerErrorKind::AlreadyAnswered)))
            == Outcome::<A, Error>::Refused(Error::AlreadyAnswered),
        run_outcome(true, pending_project, registration_form, Ok::<I, UseCaseError<FormAnswerItemsError>>(items),
            Err::<Found<A>, UseCaseError<RegistrationFormAnswerErrorKind>>(UseCaseError::UseCase(RegistrationFormAnswerErrorKind::OutOfProjectCreationPeriod)))
            == Outcome::<A, Error>::Refused(Error::OutOfProjectCreationPeriod),
        run_outcome(true, pending_project, registration_form, Ok::<I, UseCaseError<FormAnswerItemsError>>(items),
            Err::<Found<A>, UseCaseError<RegistrationFormAnswerErrorKind>>(UseCaseError::UseCase(k1)))
            matches Outcome::Refused(Error::InvalidAnswer(c))
            ==> (k1 matches RegistrationFormAnswerErrorKind::InvalidItem { id, kind }
                ==> c == check_answer_error_of(CheckAnswerErrorKind::Item(id, kind))),
{
}

/// A registration form is answered with the same reports as a form, where
/// the reasons agree: an answer given twice, a form that does not target
/// the respondent, and a mismatch of the items' number are reported as
/// answering a form reports them.
pub proof fn lemma_refusals_agree_with_answering_a_form(id: FormItemId, kind: CheckAnswerItemErrorKind, expected: FormItemId, got: FormItemId)
    ensures
        (Error::answer_error_of(RegistrationFormAnswerErrorKind::AlreadyAnswered) is AlreadyAnswered)
            == (crate::answer_form::Error::answer_error_of(crate::domain::FormAnswerErrorKind::AlreadyAnswered) is AlreadyAnswered),
        (Error::answer_error_of(RegistrationFormAnswerErrorKind::NotTargeted) is RegistrationFormNotFound)
            == (crate::answer_form::Error::answer_error_of(crate::domain::FormAnswerErrorKind::NotTargeted) is FormNotFound),
        Error::answer_error_of(RegistrationFormAnswerErrorKind::InvalidItem { id, kind })
            == Error::InvalidAnswer(check_answer_error_of(CheckAnswerErrorKind::Item(id, kind))),
        Error::answer_error_of(RegistrationFormAnswerErrorKind::MismatchedItemId { expected, got })
            == Error::InvalidAnswer(check_answer_error_of(CheckAnswerErrorKind::MismatchedItemId { expected, got })),
        Error::answer_error_of(RegistrationFormAnswerErrorKind::MismatchedItemsLength)
            == Error::InvalidAnswer(check_answer_error_of(CheckAnswerErrorKind::MismatchedItemsLength)),
{
}

} // verus!
