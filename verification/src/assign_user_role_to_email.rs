//! Giving a role to whoever owns an email address: the user who signed up
//! with it, or else an invitation to it.
use vstd::prelude::*;

use crate::domain::{EmailAddressErrorKind, NewUserInvitationErrorKind};
use crate::error::{keeps_internal, outcome, Outcome, UseCaseError, UseCaseResult};
use crate::flow::Found;
use crate::model::UserInvitationRole;

verus! {

#[derive(Debug, Clone, Copy, PartialEq, Eq, Structural)]
pub enum Error {
    InvalidEmailAddress,
    NotUniversityEmailAddress,
    InsufficientPermissions,
}

impl Error {
    /// The error for each reason an email address is refused.
    pub open spec fn email_error_of(kind: EmailAddressErrorKind) -> Error {
        match kind {
            EmailAddressErrorKind::NotUniversityEmailAddress => Error::NotUniversityEmailAddress,
            EmailAddressErrorKind::InvalidEmailAddress => Error::InvalidEmailAddress,
        }
    }

    pub fn from_email_error(kind: EmailAddressErrorKind) -> (res: Self)
        ensures
            res == Self::email_error_of(kind),
    {
        match kind {
            EmailAddressErrorKind::NotUniversityEmailAddress => Error::NotUniversityEmailAddress,
            EmailAddressErrorKind::InvalidEmailAddress => Error::InvalidEmailAddress,
        }
    }

    /// What a refused invitation comes to: missing permissions are the
    /// caller's; an address already invited or signed up cannot occur here,
    /// since both were looked up before, and is an internal failure.
    pub open spec fn new_invitation_outcome<T>(kind: NewUserInvitationErrorKind) -> Outcome<T, Error> {
        match kind {
            NewUserInvitationErrorKind::InsufficientPermissions => Outcome::Refused(Error::InsufficientPermissions),
            _ => Outcome::Failed,
        }
    }

    pub fn from_new_invitation_error(kind: NewUserInvitationErrorKind) -> (res: UseCaseError<Self>)
        ensures
            outcome(Err::<(), _>(res)) == Self::new_invitation_outcome::<()>(kind),
    {
        match kind {
            NewUserInvitationErrorKind::InsufficientPermissions => UseCaseError::UseCase(Error::InsufficientPermissions),
            NewUserInvitationErrorKind::AlreadyInvitedEmailAddress => UseCaseError::Internal(
                crate::error::internal_error("Unexpected NewUserInvitationErrorKind::AlreadyInvitedEmailAddress"),
            ),
            NewUserInvitationErrorKind::AlreadySignedUpEmailAddress => UseCaseError::Internal(
                crate::error::internal_error("Unexpected NewUserInvitationErrorKind::AlreadySignedUpEmailAddress"),
            ),
        }
    }

    /// Setting a user's role is refused only for missing permissions.
    pub fn from_set_role_error() -> (res: Self)
        ensures
            res == Error::InsufficientPermissions,
    {
        Error::InsufficientPermissions
    }
}

#[derive(Debug, Clone)]
pub struct Input {
    pub email: String,
    pub role: UserInvitationRole,
}

/// What the role went to.
#[derive(Debug, Clone)]
pub enum Output<I, U> {
    Invitation(I),
    User(U),
}

/// A user who signed up with the address: whether the logged-in user may set
/// the user's role, and the user with the role set.
pub struct ExistingUser<U> {
    pub may_set_role: bool,
    pub user: Found<U>,
}

/// An invitation already sent to the address, with its role.
pub struct ExistingInvitation<I> {
    pub role: UserInvitationRole,
    pub invitation: Found<I>,
}

/// Whether an invitation already sent to the address is kept as it is: it is
/// where it invites to the requested role, and it is deleted and replaced by
/// a new one otherwise.
pub fn keeps_invitation(existing: UserInvitationRole, role: UserInvitationRole) -> (res: bool)
    ensures
        res == (existing == role),
{
    existing == role
}

/// The outcome of giving the role: a user with the address gets the role; an
/// invitation to the same role stands; otherwise a new invitation is made.
pub open spec fn run_outcome<I, U>(
    email: Result<(), EmailAddressErrorKind>,
    role: UserInvitationRole,
    user: Option<ExistingUser<U>>,
    existing_invitation: Option<ExistingInvitation<I>>,
    new_invitation: UseCaseResult<Found<I>, NewUserInvitationErrorKind>,
) -> Outcome<Output<I, U>, Error> {
    match email {
        Err(kind) => Outcome::Refused(Error::email_error_of(kind)),
        Ok(()) => match user {
            Some(u) => if !u.may_set_role {
                Outcome::Refused(Error::InsufficientPermissions)
            } else if u.user.visible {
                Outcome::Done(Output::User(u.user.entity))
            } else {
                Outcome::Failed
            },
            None => match existing_invitation {
                Some(inv) if inv.role == role => if inv.invitation.visible {
                    Outcome::Done(Output::Invitation(inv.invitation.entity))
                } else {
                    Outcome::Failed
                },
                _ => match outcome(new_invitation) {
                    Outcome::Refused(kind) => Error::new_invitation_outcome(kind),
                    Outcome::Failed => Outcome::Failed,
                    Outcome::Done(inv) => if inv.visible {
                        Outcome::Done(Output::Invitation(inv.entity))
                    } else {
                        Outcome::Failed
                    },
                },
            },
        },
    }
}

/// Gives the role, given the verdict on the email address, the user who
/// signed up with it (if any), the invitation already sent to it (if any),
/// and the new invitation the entity layer made (or why it refused to).
pub fn run<I, U>(
    email: Result<(), EmailAddressErrorKind>,
    role: UserInvitationRole,
    user: Option<ExistingUser<U>>,
    existing_invitation: Option<ExistingInvitation<I>>,
    new_invitation: UseCaseResult<Found<I>, NewUserInvitationErrorKind>,
) -> (res: UseCaseResult<Output<I, U>, Error>)
    ensures
        outcome(res) == run_outcome(email, role, user, existing_invitation, new_invitation),
        email is Ok && user is None && !(existing_invitation matches Some(inv) && inv.role == role)
            ==> keeps_internal(new_invitation, res),
{
    if let Err(kind) = email {
        return Err(UseCaseError::UseCase(Error::from_email_error(kind)));
    }
    if let Some(u) = user {
        if !u.may_set_role {
            return Err(UseCaseError::UseCase(Error::from_set_role_error()));
        }
        let found = crate::flow::expect_visible(u.user)?;
        return Ok(Output::User(found));
    }
    if let Some(inv) = existing_invitation {
        if keeps_invitation(inv.role, role) {
            let found = crate::flow::expect_visible(inv.invitation)?;
            return Ok(Output::Invitation(found));
        }
    }
    match new_invitation {
        Ok(inv) => {
            let found = crate::flow::expect_visible(inv)?;
            Ok(Output::Invitation(found))
        },
        Err(UseCaseError::UseCase(kind)) => Err(Error::from_new_invitation_error(kind)),
        Err(UseCaseError::Internal(e)) => Err(UseCaseError::Internal(e)),
    }
}

/// Where a user signed up with the address, the role goes to that user, and
/// no invitation is looked at or made.
pub proof fn lemma_signed_up_user_takes_role<I, U>(
    role: UserInvitationRole,
    user: ExistingUser<U>,
    existing_invitation: Option<ExistingInvitation<I>>,
    new_invitation: UseCaseResult<Found<I>, NewUserInvitationErrorKind>,
    other_invitation: Option<ExistingInvitation<I>>,
    other_new_invitation: UseCaseResult<Found<I>, NewUserInvitationErrorKind>,
)
    ensures
        run_outcome(Ok(()), role, Some(user), existing_invitation, new_invitation)
            == run_outcome(Ok(()), role, Some(user), other_invitation, other_new_invitation),
{
}

/// An invitation already sent to the requested role stands: no new one is made.
pub proof fn lemma_same_role_invitation_stands<I, U>(
    role: UserInvitationRole,
    invitation: Found<I>,
    new_invitation: UseCaseResult<Found<I>, NewUserInvitationErrorKind>,
)
    requires
        invitation.visible,
    ensures
        run_outcome::<I, U>(Ok(()), role, None, Some(ExistingInvitation { role, invitation }), new_invitation)
            == Outcome::<Output<I, U>, Error>::Done(Output::Invitation(invitation.entity)),
{
}

/// A change that giving the role makes to the repositories.
#[derive(Debug, Clone, Copy, PartialEq, Eq, Structural)]
pub enum Effect {
    /// Store the user who signed up with the address, with the role set.
    StoreUser,
    /// Delete the invitation already sent to the address.
    DeleteInvitation,
    /// Store the new invitation the entity layer made.
    StoreInvitation,
}

/// The changes giving the role makes, in order: a user who signed up with the
/// address is stored with the role where the logged-in user may set it; else
/// an invitation already sent to another role is deleted, before the new
/// invitation is made, and the new invitation is stored where the entity
/// layer made it. Visibility is checked only after a store.
pub open spec fn assign_effects<I, U>(
    email: Result<(), EmailAddressErrorKind>,
    role: UserInvitationRole,
    user: Option<ExistingUser<U>>,
    existing_invitation: Option<ExistingInvitation<I>>,
    new_invitation: UseCaseResult<Found<I>, NewUserInvitationErrorKind>,
) -> Seq<Effect> {
    match email {
        Err(_) => seq![],
        Ok(()) => match user {
            Some(u) => if u.may_set_role { seq![Effect::StoreUser] } else { seq![] },
            None => {
                let stored = if new_invitation is Ok { seq![Effect::StoreInvitation] } else { seq![] };
                match existing_invitation {
                    Some(inv) => if inv.role == role { seq![] } else { seq![Effect::DeleteInvitation] + stored },
                    None => stored,
                }
            },
        },
    }
}

/// Gives the changes giving the role makes, from the same answers `run`
/// decides on.
pub fn effects<I, U>(
    email: Result<(), EmailAddressErrorKind>,
    role: UserInvitationRole,
    user: &Option<ExistingUser<U>>,
    existing_invitation: &Option<ExistingInvitation<I>>,
    new_invitation: &UseCaseResult<Found<I>, NewUserInvitationErrorKind>,
) -> (res: Vec<Effect>)
    ensures
        res@ == assign_effects(email, role, *user, *existing_invitation, *new_invitation),
{
    let mut out: Vec<Effect> = Vec::new();
    if email.is_err() {
        return out;
    }
    match user {
        Some(u) => {
            if u.may_set_role {
                out.push(Effect::StoreUser);
            }
            return out;
        },
        None => {},
    }
    match existing_invitation {
        Some(inv) => {
            if keeps_invitation(inv.role, role) {
                return out;
            }
            out.push(Effect::DeleteInvitation);
        },
        None => {},
    }
    if new_invitation.is_ok() {
        out.push(Effect::StoreInvitation);
    }
    out
}

/// An invitation already sent to another role is deleted once the address is
/// accepted and no user signed up with it, whatever becomes of the new
/// invitation: also where the entity layer refuses to make it.
pub proof fn lemma_replaced_invitation_deleted<I, U>(
    role: UserInvitationRole,
    existing: ExistingInvitation<I>,
    new_invitation: UseCaseResult<Found<I>, NewUserInvitationErrorKind>,
)
    requires
        existing.role != role,
    ensures
        assign_effects::<I, U>(Ok(()), role, None, Some(existing), new_invitation)[0] == Effect::DeleteInvitation,
        new_invitation is Err ==> assign_effects::<I, U>(Ok(()), role, None, Some(existing), new_invitation)
            == seq![Effect::DeleteInvitation],
{
}

/// Whether an invitation already sent to the address invites to `role`.
pub open spec fn invited_to<I>(existing_invitation: Option<ExistingInvitation<I>>, role: UserInvitationRole) -> bool {
    match existing_invitation {
        Some(inv) => inv.role == role,
        None => false,
    }
}

/// Where the new invitation neither failed internally nor was refused for an
/// address already invited or signed up (which cannot occur here and fails
/// internally), a user or an invitation is stored exactly where giving the
/// role is not refused and no invitation to the same role already stands.
pub proof fn lemma_stored_unless_refused<I, U>(
    email: Result<(), EmailAddressErrorKind>,
    role: UserInvitationRole,
    user: Option<ExistingUser<U>>,
    existing_invitation: Option<ExistingInvitation<I>>,
    new_invitation: UseCaseResult<Found<I>, NewUserInvitationErrorKind>,
)
    requires
        !(new_invitation matches Err(UseCaseError::Internal(_))),
        !(new_invitation matches Err(UseCaseError::UseCase(k)) && !(k is InsufficientPermissions)),
    ensures
        ({
            let fx = assign_effects(email, role, user, existing_invitation, new_invitation);
            (fx.contains(Effect::StoreUser) || fx.contains(Effect::StoreInvitation))
                <==> (!(run_outcome(email, role, user, existing_invitation, new_invitation) is Refused)
                    && !(email is Ok && user is None && invited_to(existing_invitation, role)))
        }),
{
    let fx = assign_effects(email, role, user, existing_invitation, new_invitation);
    if email is Ok && user is None {
        if existing_invitation is Some && !invited_to(existing_invitation, role) {
            if new_invitation is Ok {
                assert(fx[1] == Effect::StoreInvitation);
            } else {
                assert(fx =~= seq![Effect::DeleteInvitation]);
                assert(!fx.contains(Effect::StoreUser)) by {
                    if fx.contains(Effect::StoreUser) {
                        let j = choose|j: int| 0 <= j < fx.len() && fx[j] == Effect::StoreUser;
                        assert(fx[j] == Effect::DeleteInvitation);
                    }
                }
                assert(!fx.contains(Effect::StoreInvitation)) by {
                    if fx.contains(Effect::StoreInvitation) {
                        let j = choose|j: int| 0 <= j < fx.len() && fx[j] == Effect::StoreInvitation;
                        assert(fx[j] == Effect::DeleteInvitation);
                    }
                }
            }
        } else if existing_invitation is None && new_invitation is Ok {
            assert(fx[0] == Effect::StoreInvitation);
        }
    } else if email is Ok {
        if user->Some_0.may_set_role {
            assert(fx[0] == Effect::StoreUser);
        }
    }
}

/// A refused email address is reported under its own reason, as inviting a
/// user reports it: two different reasons are never reported alike, an
/// address outside the university is reported as such, and a malformed one
/// as invalid, whatever else is given.
pub proof fn lemma_email_refusal_reported<I, U>(
    k1: EmailAddressErrorKind,
    k2: EmailAddressErrorKind,
    role: UserInvitationRole,
    user: Option<ExistingUser<U>>,
    existing_invitation: Option<ExistingInvitation<I>>,
    new_invitation: UseCaseResult<Found<I>, NewUserInvitationErrorKind>,
)
    ensures
        run_outcome(Err(k1), role, user, existing_invitation, new_invitation)
            == run_outcome(Err(k2), role, user, existing_invitation, new_invitation)
            ==> k1 == k2,
        run_outcome(Err(EmailAddressErrorKind::NotUniversityEmailAddress), role, user, existing_invitation, new_invitation)
            == Outcome::<Output<I, U>, Error>::Refused(Error::NotUniversityEmailAddress),
        run_outcome(Err(EmailAddressErrorKind::InvalidEmailAddress), role, user, existing_invitation, new_invitation)
            == Outcome::<Output<I, U>, Error>::Refused(Error::InvalidEmailAddress),
        (run_outcome(Err(k1), role, user, existing_invitation, new_invitation)
            == Outcome::<Output<I, U>, Error>::Refused(Error::NotUniversityEmailAddress))
            <==> (crate::invite_user::run_outcome::<I>(Err(k1), new_invitation)
                == Outcome::<I, crate::invite_user::Error>::Refused(crate::invite_user::Error::NotUniversityEmailAddress)),
{
}

} // verus!
