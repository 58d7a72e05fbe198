//! Inviting a user, by email address, to a role.
use vstd::prelude::*;

use crate::domain::{EmailAddressErrorKind, NewUserInvitationErrorKind};
use crate::error::{keeps_internal, outcome, Outcome, UseCaseError, UseCaseResult};
use crate::flow::{expect_visible_outcome, Found};
use crate::model::UserInvitationRole;

verus! {

#[derive(Debug, Clone, Copy, PartialEq, Eq, Structural)]
pub enum Error {
    InvalidEmailAddress,
    NotUniversityEmailAddress,
    AlreadyInvitedEmailAddress,
    AlreadySignedUpEmailAddress,
    InsufficientPermissions,
}

impl Error {
    /// The error for each reason an email address is refused.
    pub open spec fn email_error_of(kind: EmailAddressErrorKind) -> Error {
        match kind {
            EmailAddressErrorKind::NotUniversityEmailAddress => Error::NotUniversityEmailAddress,
            EmailAddressErrorKind::InvalidEmailAddress => Error::InvalidEmailAddress,
        }
    }

    pub fn from_email_error(kind: EmailAddressErrorKind) -> (res: Self)
        ensures
            res == Self::email_error_of(kind),
    {
        match kind {
            EmailAddressErrorKind::NotUniversityEmailAddress => Error::NotUniversityEmailAddress,
            EmailAddressErrorKind::InvalidEmailAddress => Error::InvalidEmailAddress,
        }
    }

    /// The error for each reason the entity layer refuses the invitation.
    pub open spec fn new_invitation_error_of(kind: NewUserInvitationErrorKind) -> Error {
        match kind {
            NewUserInvitationErrorKind::InsufficientPermissions => Error::InsufficientPermissions,
            NewUserInvitationErrorKind::AlreadyInvitedEmailAddress => Error::AlreadyInvitedEmailAddress,
            NewUserInvitationErrorKind::AlreadySignedUpEmailAddress => Error::AlreadySignedUpEmailAddress,
        }
    }

    pub fn from_new_invitation_error(kind: NewUserInvitationErrorKind) -> (res: Self)
        ensures
            res == Self::new_invitation_error_of(kind),
    {
        match kind {
            NewUserInvitationErrorKind::InsufficientPermissions => Error::InsufficientPermissions,
            NewUserInvitationErrorKind::AlreadyInvitedEmailAddress => Error::AlreadyInvitedEmailAddress,
            NewUserInvitationErrorKind::AlreadySignedUpEmailAddress => Error::AlreadySignedUpEmailAddress,
        }
    }
}

#[derive(Debug, Clone)]
pub struct Input {
    pub email: String,
    pub role: UserInvitationRole,
}

/// The outcome of inviting a user.
pub open spec fn run_outcome<I>(
    email: Result<(), EmailAddressErrorKind>,
    invitation: UseCaseResult<Found<I>, NewUserInvitationErrorKind>,
) -> Outcome<I, Error> {
    match email {
        Err(kind) => Outcome::Refused(Error::email_error_of(kind)),
        Ok(()) => match outcome(invitation) {
            Outcome::Refused(kind) => Outcome::Refused(Error::new_invitation_error_of(kind)),
            Outcome::Failed => Outcome::Failed,
            Outcome::Done(inv) => expect_visible_outcome(inv),
        },
    }
}

/// Invites a user, given the verdict on the email address and the invitation
/// the entity layer made (or why it refused to).
pub fn run<I>(
    email: Result<(), EmailAddressErrorKind>,
    invitation: UseCaseResult<Found<I>, NewUserInvitationErrorKind>,
) -> (res: UseCaseResult<I, Error>)
    ensures
        outcome(res) == run_outcome(email, invitation),
        email is Ok ==> keeps_internal(invitation, res),
{
    if let Err(kind) = email {
        return Err(UseCaseError::UseCase(Error::from_email_error(kind)));
    }
    match invitation {
        Ok(inv) => crate::flow::expect_visible(inv),
        Err(UseCaseError::UseCase(kind)) => Err(UseCaseError::UseCase(Error::from_new_invitation_error(kind))),
        Err(UseCaseError::Internal(e)) => Err(UseCaseError::Internal(e)),
    }
}

/// A change that inviting a user makes to the repositories.
#[derive(Debug, Clone, Copy, PartialEq, Eq, Structural)]
pub enum Effect {
    /// Store the invitation the entity layer made.
    StoreInvitation,
}

/// The changes inviting a user makes: the invitation is stored where the
/// address is accepted and the entity layer made it; its visibility is
/// checked only after it is stored.
pub open spec fn invite_effects<I>(
    email: Result<(), EmailAddressErrorKind>,
    invitation: UseCaseResult<Found<I>, NewUserInvitationErrorKind>,
) -> Seq<Effect> {
    if email is Ok && invitation is Ok { seq![Effect::StoreInvitation] } else { seq![] }
}

/// Gives the changes inviting a user makes, from the same answers `run`
/// decides on.
pub fn effects<I>(
    email: Result<(), EmailAddressErrorKind>,
    invitation: &UseCaseResult<Found<I>, NewUserInvitationErrorKind>,
) -> (res: Vec<Effect>)
    ensures
        res@ == invite_effects(email, *invitation),
{
    let mut out: Vec<Effect> = Vec::new();
    if email.is_ok() && invitation.is_ok() {
        out.push(Effect::StoreInvitation);
    }
    out
}

/// Where the entity layer did not fail internally, the invitation is stored
/// exactly where inviting is not refused.
pub proof fn lemma_invitation_stored_unless_refused<I>(
    email: Result<(), EmailAddressErrorKind>,
    invitation: UseCaseResult<Found<I>, NewUserInvitationErrorKind>,
)
    requires
        !(invitation matches Err(UseCaseError::Internal(_))),
    ensures
        invite_effects(email, invitation).len() == 1 <==> !(run_outcome(email, invitation) is Refused),
{
}

/// Each refusal of the address and of the invitation is reported under its
/// own name: two different refusals are never reported alike, and a refused
/// address is never taken for a refused invitation.
pub proof fn lemma_invite_refusals_distinct(
    e1: EmailAddressErrorKind,
    e2: EmailAddressErrorKind,
    n1: NewUserInvitationErrorKind,
    n2: NewUserInvitationErrorKind,
)
    ensures
        Error::email_error_of(e1) == Error::email_error_of(e2) ==> e1 == e2,
        Error::new_invitation_error_of(n1) == Error::new_invitation_error_of(n2) ==> n1 == n2,
        Error::email_error_of(e1) != Error::new_invitation_error_of(n1),
        (Error::new_invitation_error_of(n1) is InsufficientPermissions) <==> (n1 is InsufficientPermissions),
{
}

} // verus!
