//! Checking whether a string can be taken as a project's display id.
use std::convert::Infallible;
use vstd::prelude::*;

use crate::domain::DisplayIdErrorKind;
use crate::error::{keeps_internal, outcome, Outcome, UseCaseError, UseCaseResult};

verus! {

#[derive(Debug, Clone, Copy, PartialEq, Eq, Structural)]
pub enum DisplayIdStatus {
    Invalid { reason: DisplayIdInvalidReason },
    Unavailable,
    Available,
}

#[derive(Debug, Clone, Copy, PartialEq, Eq, Structural)]
pub enum DisplayIdInvalidReason {
    TooLong,
    TooShort,
    ContainsDisallowedCharacter,
    StartsWithUnderscore,
}

impl DisplayIdInvalidReason {
    /// The reason reported for each way a display id is malformed.
    pub open spec fn reason_of(kind: DisplayIdErrorKind) -> DisplayIdInvalidReason {
        match kind {
            DisplayIdErrorKind::TooLong => DisplayIdInvalidReason::TooLong,
            DisplayIdErrorKind::TooShort => DisplayIdInvalidReason::TooShort,
            DisplayIdErrorKind::ContainsDisallowedCharacter => DisplayIdInvalidReason::ContainsDisallowedCharacter,
            DisplayIdErrorKind::StartsWithUnderscore => DisplayIdInvalidReason::StartsWithUnderscore,
        }
    }

    pub fn from_display_id_error(kind: DisplayIdErrorKind) -> (res: Self)
        ensures
            res == Self::reason_of(kind),
    {
        match kind {
            DisplayIdErrorKind::TooLong => DisplayIdInvalidReason::TooLong,
            DisplayIdErrorKind::TooShort => DisplayIdInvalidReason::TooShort,
            DisplayIdErrorKind::ContainsDisallowedCharacter => DisplayIdInvalidReason::ContainsDisallowedCharacter,
            DisplayIdErrorKind::StartsWithUnderscore => DisplayIdInvalidReason::StartsWithUnderscore,
        }
    }
}

/// The status of a display id: malformed ones are invalid, whatever the
/// repository holds; a well-formed one is available where no project has it.
pub open spec fn run_outcome(
    display_id: Result<(), DisplayIdErrorKind>,
    visible: bool,
    available: UseCaseResult<bool, Infallible>,
) -> Outcome<DisplayIdStatus, Infallible> {
    match display_id {
        Err(kind) => Outcome::Done(DisplayIdStatus::Invalid { reason: DisplayIdInvalidReason::reason_of(kind) }),
        Ok(()) => if !visible {
            Outcome::Failed
        } else {
            match outcome(available) {
                Outcome::Done(true) => Outcome::Done(DisplayIdStatus::Available),
                Outcome::Done(false) => Outcome::Done(DisplayIdStatus::Unavailable),
                Outcome::Refused(never) => Outcome::Refused(never),
                Outcome::Failed => Outcome::Failed,
            }
        },
    }
}

/// Tells the status of a display id, given the verdict on its form, whether
/// the logged-in user may see it, and whether the repository has it free.
pub fn run(
    display_id: Result<(), DisplayIdErrorKind>,
    visible: bool,
    available: UseCaseResult<bool, Infallible>,
) -> (res: UseCaseResult<DisplayIdStatus, Infallible>)
    ensures
        outcome(res) == run_outcome(display_id, visible, available),
        display_id is Ok && visible ==> keeps_internal(available, res),
{
    if let Err(kind) = display_id {
        return Ok(DisplayIdStatus::Invalid { reason: DisplayIdInvalidReason::from_display_id_error(kind) });
    }
    crate::error::ensure(visible, "Condition failed: display_id.is_visible_to(ctx.login_user())")?;
    match available {
        Ok(true) => Ok(DisplayIdStatus::Available),
        Ok(false) => Ok(DisplayIdStatus::Unavailable),
        Err(UseCaseError::Internal(e)) => Err(UseCaseError::Internal(e)),
        Err(UseCaseError::UseCase(never)) => Err(UseCaseError::UseCase(never)),
    }
}

/// A malformed display id is answered as invalid, with the reason of its
/// form, whatever the repository holds.
pub proof fn lemma_malformed_ignores_repository(
    kind: DisplayIdErrorKind,
    visible: bool,
    available: UseCaseResult<bool, Infallible>,
    other_visible: bool,
    other_available: UseCaseResult<bool, Infallible>,
)
    ensures
        run_outcome(Err(kind), visible, available) == run_outcome(Err(kind), other_visible, other_available),
        run_outcome(Err(kind), visible, available) == Outcome::<DisplayIdStatus, Infallible>::Done(
            DisplayIdStatus::Invalid { reason: DisplayIdInvalidReason::reason_of(kind) },
        ),
{
}

/// Each way a display id is malformed is reported as its own reason: two
/// different ways are never reported alike.
pub proof fn lemma_reasons_distinct(k1: DisplayIdErrorKind, k2: DisplayIdErrorKind)
    ensures
        DisplayIdInvalidReason::reason_of(k1) == DisplayIdInvalidReason::reason_of(k2) ==> k1 == k2,
{
}

} // verus!
