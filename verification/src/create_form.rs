//! Creating a form.
use vstd::prelude::*;

use crate::domain::NewFormErrorKind;
use crate::error::{outcome, Outcome, UseCaseError, UseCaseResult};
use crate::flow::Found;
use crate::interface::form::{FormConditionError, FormItemsError};

verus! {

#[derive(Debug, Clone, Copy, PartialEq, Eq, Structural)]
pub enum Error {
    InvalidName,
    InvalidDescription,
    InvalidPeriod,
    TooEarlyPeriodStart,
    InvalidItems(FormItemsError),
    InvalidCondition(FormConditionError),
    InsufficientPermissions,
}

impl Error {
    pub fn from_name_error() -> (res: Self)
        ensures
            res == Error::InvalidName,
    {
        Error::InvalidName
    }

    pub fn from_description_error() -> (res: Self)
        ensures
            res == Error::InvalidDescription,
    {
        Error::InvalidDescription
    }

    pub fn from_period_error() -> (res: Self)
        ensures
            res == Error::InvalidPeriod,
    {
        Error::InvalidPeriod
    }

    pub fn from_items_error(err: FormItemsError) -> (res: Self)
        ensures
            res == Error::InvalidItems(err),
    {
        Error::InvalidItems(err)
    }

    pub fn from_condition_error(err: FormConditionError) -> (res: Self)
        ensures
            res == Error::InvalidCondition(err),
    {
        Error::InvalidCondition(err)
    }

    pub open spec fn new_form_error_of(kind: NewFormErrorKind) -> Error {
        match kind {
            NewFormErrorKind::TooEarlyPeriodStart => Error::TooEarlyPeriodStart,
            NewFormErrorKind::InsufficientPermissions => Error::InsufficientPermissions,
        }
    }

    pub fn from_new_form_error(kind: NewFormErrorKind) -> (res: Self)
        ensures
            res == Self::new_form_error_of(kind),
    {
        match kind {
            NewFormErrorKind::TooEarlyPeriodStart => Error::TooEarlyPeriodStart,
            NewFormErrorKind::InsufficientPermissions => Error::InsufficientPermissions,
        }
    }
}

/// The outcome of creating a form, in the order of the checks.
pub open spec fn run_outcome<I, C, F>(
    name_accepted: bool,
    description_accepted: bool,
    items: Result<I, FormItemsError>,
    condition: Result<C, FormConditionError>,
    period_accepted: bool,
    form: Result<Found<F>, NewFormErrorKind>,
) -> Outcome<F, Error> {
    if !name_accepted {
        Outcome::Refused(Error::InvalidName)
    } else if !description_accepted {
        Outcome::Refused(Error::InvalidDescription)
    } else {
        match items {
            Err(e) => Outcome::Refused(Error::InvalidItems(e)),
            Ok(_) => match condition {
                Err(e) => Outcome::Refused(Error::InvalidCondition(e)),
                Ok(_) => if !period_accepted {
                    Outcome::Refused(Error::InvalidPeriod)
                } else {
                    match form {
                        Err(k) => Outcome::Refused(Error::new_form_error_of(k)),
                        Ok(f) => if f.visible { Outcome::Done(f.entity) } else { Outcome::Failed },
                    }
                },
            },
        }
    }
}

/// Creates a form, given the entity layer's verdicts on its name and
/// description, its items and condition as decided, the verdict on its
/// period, and the form made (or why the user may not make it).
pub fn run<I, C, F>(
    name_accepted: bool,
    description_accepted: bool,
    items: Result<I, FormItemsError>,
    condition: Result<C, FormConditionError>,
    period_accepted: bool,
    form: Result<Found<F>, NewFormErrorKind>,
) -> (res: UseCaseResult<F, Error>)
    ensures
        outcome(res) == run_outcome(name_accepted, description_accepted, items, condition, period_accepted, form),
{
    if !name_accepted {
        return Err(UseCaseError::UseCase(Error::from_name_error()));
    }
    if !description_accepted {
        return Err(UseCaseError::UseCase(Error::from_description_error()));
    }
    if let Err(e) = items {
        return Err(UseCaseError::UseCase(Error::from_items_error(e)));
    }
    if let Err(e) = condition {
        return Err(UseCaseError::UseCase(Error::from_condition_error(e)));
    }
    if !period_accepted {
        return Err(UseCaseError::UseCase(Error::from_period_error()));
    }
    match form {
        Err(k) => Err(UseCaseError::UseCase(Error::from_new_form_error(k))),
        Ok(f) => crate::flow::expect_visible(f),
    }
}

/// A change that creating a form makes to the repositories.
#[derive(Debug, Clone, Copy, PartialEq, Eq, Structural)]
pub enum Effect {
    /// Store the form the entity layer made.
    StoreForm,
}

/// The changes creating a form makes: the form is stored where every verdict
/// accepts it and the entity layer made it; its visibility is checked only
/// after it is stored.
pub open spec fn form_effects<I, C, F>(
    name_accepted: bool,
    description_accepted: bool,
    items: Result<I, FormItemsError>,
    condition: Result<C, FormConditionError>,
    period_accepted: bool,
    form: Result<Found<F>, NewFormErrorKind>,
) -> Seq<Effect> {
    if name_accepted && description_accepted && items is Ok && condition is Ok && period_accepted && form is Ok {
        seq![Effect::StoreForm]
    } else {
        seq![]
    }
}

/// Gives the changes creating a form makes, from the same answers `run`
/// decides on.
pub fn effects<I, C, F>(
    name_accepted: bool,
    description_accepted: bool,
    items: &Result<I, FormItemsError>,
    condition: &Result<C, FormConditionError>,
    period_accepted: bool,
    form: &Result<Found<F>, NewFormErrorKind>,
) -> (res: Vec<Effect>)
    ensures
        res@ == form_effects(name_accepted, description_accepted, *items, *condition, period_accepted, *form),
{
    let mut out: Vec<Effect> = Vec::new();
    if name_accepted && description_accepted && items.is_ok() && condition.is_ok() && period_accepted && form.is_ok() {
        out.push(Effect::StoreForm);
    }
    out
}

/// The form is stored exactly where creating it is not refused.
pub proof fn lemma_form_stored_unless_refused<I, C, F>(
    name_accepted: bool,
    description_accepted: bool,
    items: Result<I, FormItemsError>,
    condition: Result<C, FormConditionError>,
    period_accepted: bool,
    form: Result<Found<F>, NewFormErrorKind>,
)
    ensures
        form_effects(name_accepted, description_accepted, items, condition, period_accepted, form).len() == 1
            <==> !(run_outcome(name_accepted, description_accepted, items, condition, period_accepted, form) is Refused),
{
}

/// Each refusal of the entity layer to make a form is reported under its own
/// name: a period that starts too early is never taken for missing
/// permissions, nor the reverse.
pub proof fn lemma_new_form_refusals_distinct(k1: NewFormErrorKind, k2: NewFormErrorKind)
    ensures
        Error::new_form_error_of(k1) == Error::new_form_error_of(k2) ==> k1 == k2,
        (Error::new_form_error_of(k1) is InsufficientPermissions) <==> (k1 is InsufficientPermissions),
{
}

} // verus!
