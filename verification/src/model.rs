use vstd::prelude::*;

use crate::error::Outcome;

verus! {

/// Identifier of a form item.
#[derive(Clone, Copy, Debug, PartialEq, Eq, Structural)]
pub struct FormItemId(pub u128);

/// Identifier of a checkbox inside a checkbox form item.
#[derive(Clone, Copy, Debug, PartialEq, Eq, Structural)]
pub struct CheckboxId(pub u128);

/// Identifier of a radio button inside a radio form item.
#[derive(Clone, Copy, Debug, PartialEq, Eq, Structural)]
pub struct RadioId(pub u128);

/// Identifier of a row of a grid radio form item.
#[derive(Clone, Copy, Debug, PartialEq, Eq, Structural)]
pub struct GridRadioRowId(pub u128);

/// Identifier of a column of a grid radio form item.
#[derive(Clone, Copy, Debug, PartialEq, Eq, Structural)]
pub struct GridRadioColumnId(pub u128);

/// Identifier of a form.
#[derive(Clone, Copy, Debug, PartialEq, Eq, Structural)]
pub struct FormId(pub u128);

/// Identifier of a registration form.
#[derive(Clone, Copy, Debug, PartialEq, Eq, Structural)]
pub struct RegistrationFormId(pub u128);

/// Identifier of a project.
#[derive(Clone, Copy, Debug, PartialEq, Eq, Structural)]
pub struct ProjectId(pub u128);

/// Identifier of a pending project.
#[derive(Clone, Copy, Debug, PartialEq, Eq, Structural)]
pub struct PendingProjectId(pub u128);

/// Identifier of a file sharing.
#[derive(Clone, Copy, Debug, PartialEq, Eq, Structural)]
pub struct FileSharingId(pub u128);

/// Identifier of an answer to a registration form.
#[derive(Clone, Copy, Debug, PartialEq, Eq, Structural)]
pub struct RegistrationFormAnswerId(pub u128);

/// Identifier of a file distribution.
#[derive(Clone, Copy, Debug, PartialEq, Eq, Structural)]
pub struct FileDistributionId(pub u128);

/// Identifier of an answer to a form.
#[derive(Clone, Copy, Debug, PartialEq, Eq, Structural)]
pub struct FormAnswerId(pub u128);

/// Identifier of a file.
#[derive(Clone, Copy, Debug, PartialEq, Eq, Structural)]
pub struct FileId(pub u128);

/// Identifier of a user.
#[derive(Clone, Debug, PartialEq, Eq)]
pub struct UserId(pub String);

/// Identifier of a stored object, the data of a file.
#[derive(Clone, Copy, Debug, PartialEq, Eq, Structural)]
pub struct ObjectId(pub u128);

/// What a new entity gets besides its content: its identifier, drawn at
/// random, the time it is made, in seconds since the Unix epoch, and the
/// logged-in user as its author.
#[derive(Clone, Debug)]
pub struct Creation<Id> {
    pub id: Id,
    pub created_at: i64,
    pub author_id: UserId,
}

/// The name of a person: first name and last name.
#[derive(Debug, Clone)]
pub struct PersonName {
    pub first: String,
    pub last: String,
}

/// The name of a user, with its reading in kana.
#[derive(Debug, Clone)]
pub struct UserName {
    pub name: PersonName,
    pub kana_name: PersonName,
}

/// A project as it is given to the user: the project, with the names of its
/// owner and of its subowner.
#[derive(Debug, Clone)]
pub struct ProjectWithOwners<Q> {
    pub project: Q,
    pub owner: UserName,
    pub subowner: UserName,
}

/// An outcome with the project it gives joined to the names of its owner and
/// of its subowner.
pub open spec fn with_owners<Q, E>(o: Outcome<Q, E>, owner: UserName, subowner: UserName) -> Outcome<ProjectWithOwners<Q>, E> {
    match o {
        Outcome::Done(project) => Outcome::Done(ProjectWithOwners { project, owner, subowner }),
        Outcome::Refused(e) => Outcome::Refused(e),
        Outcome::Failed => Outcome::Failed,
    }
}

/// The answer to one row of a grid radio item.
#[derive(Clone, Copy, Debug, PartialEq, Eq, Structural)]
pub struct GridRadioRowAnswer {
    pub row_id: GridRadioRowId,
    pub value: Option<GridRadioColumnId>,
}

/// What a user is assigned to.
#[derive(Clone, Copy, Debug, PartialEq, Eq, Structural)]
pub enum UserAssignment {
    ProjectOwner(ProjectId),
    ProjectSubowner(ProjectId),
    PendingProjectOwner(PendingProjectId),
}

/// The category a project belongs to.
#[derive(Clone, Copy, Debug, PartialEq, Eq, Structural)]
pub enum ProjectCategory {
    General,
    CookingRequiringPreparationArea,
    Cooking,
    Food,
    Stage,
}

/// An attribute a project may carry.
#[derive(Clone, Copy, Debug, PartialEq, Eq, Structural)]
pub enum ProjectAttribute {
    Academic,
    Artistic,
    Committee,
    Outdoor,
    Indoor,
}

/// The role of a user.
#[derive(Clone, Copy, Debug, PartialEq, Eq, Structural)]
pub enum UserRole {
    Administrator,
    CommitteeOperator,
    Committee,
    General,
}

/// The category of a user.
#[derive(Clone, Copy, Debug, PartialEq, Eq, Structural)]
pub enum UserCategory {
    UndergraduateStudent,
    GraduateStudent,
    AcademicStaff,
}

/// The role a user is invited to.
#[derive(Clone, Copy, Debug, PartialEq, Eq, Structural)]
pub enum UserInvitationRole {
    Administrator,
    CommitteeOperator,
    Committee,
}

impl UserInvitationRole {
    /// The role of the user who accepts the invitation.
    pub open spec fn user_role_of(self) -> UserRole {
        match self {
            UserInvitationRole::Administrator => UserRole::Administrator,
            UserInvitationRole::CommitteeOperator => UserRole::CommitteeOperator,
            UserInvitationRole::Committee => UserRole::Committee,
        }
    }

    pub fn to_user_role(self) -> (res: UserRole)
        ensures
            res == self.user_role_of(),
    {
        match self {
            UserInvitationRole::Administrator => UserRole::Administrator,
            UserInvitationRole::CommitteeOperator => UserRole::CommitteeOperator,
            UserInvitationRole::Committee => UserRole::Committee,
        }
    }
}

} // verus!
