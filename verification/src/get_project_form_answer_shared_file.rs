//! Getting a file shared in the answer of a project to a form.
use vstd::prelude::*;

use crate::domain::ToWitnessErrorKind;
use crate::error::{internal_error, outcome, Outcome, UseCaseError, UseCaseResult};
use crate::flow::{visible_entity, Found, SharedFile};
use crate::model::{FileSharingId, FormId, ProjectId};

verus! {

/// Which entities to look up.
#[derive(Debug, Clone, Copy, PartialEq, Eq, Structural)]
pub struct Input {
    pub project_id: ProjectId,
    pub form_id: FormId,
    pub sharing_id: FileSharingId,
}

#[derive(Debug, Clone, PartialEq, Eq, Structural)]
pub enum Error {
    ProjectNotFound,
    FormNotFound,
    FormAnswerNotFound,
    FileSharingNotFound,
    InvalidSharing,
}

impl Error {
    /// A sharing out of scope is reported as FileSharingNotFound; an expired or revoked one as an invalid sharing.
    pub open spec fn witness_error_of(kind: ToWitnessErrorKind) -> Error {
        match kind {
            ToWitnessErrorKind::OutOfScope => Error::FileSharingNotFound,
            ToWitnessErrorKind::ExpiredSharing => Error::InvalidSharing,
            ToWitnessErrorKind::RevokedSharing => Error::InvalidSharing,
        }
    }

    pub fn from_witness_error(kind: ToWitnessErrorKind) -> (res: Self)
        ensures
            res == Self::witness_error_of(kind),
    {
        match kind {
            ToWitnessErrorKind::OutOfScope => Error::FileSharingNotFound,
            ToWitnessErrorKind::ExpiredSharing => Error::InvalidSharing,
            ToWitnessErrorKind::RevokedSharing => Error::InvalidSharing,
        }
    }
}

/// The outcome of getting a file shared in the answer of a project. Where no
/// answer is visible, the form decides: if it is visible, the answer is
/// reported as not found, otherwise the form.
pub open spec fn run_outcome<P, A, F>(project: Option<Found<P>>, answer: Option<Found<A>>, form_visible: bool, sharing: Option<SharedFile<F>>) -> Outcome<F, Error> {
    match visible_entity(project) {
        None => Outcome::Refused(Error::ProjectNotFound),
        Some(_) => match visible_entity(answer) {
            None => if form_visible { Outcome::Refused(Error::FormAnswerNotFound) } else { Outcome::Refused(Error::FormNotFound) },
            Some(_) => match sharing {
            None => Outcome::Refused(Error::FileSharingNotFound),
            Some(s) => match s.witness {
                Err(k) => Outcome::Refused(Error::witness_error_of(k)),
                Ok(()) => if !s.file.visible { Outcome::Failed } else { Outcome::Done(s.file.entity) },
            },
        },
        },
    }
}

/// Gives the file of a sharing in the answer of a project, given the
/// project, the project's answer, whether the form exists and is visible to
/// the logged-in user (consulted where no answer is visible), and the sharing
/// checked against the answer.
pub fn run<P, A, F>(project: Option<Found<P>>, answer: Option<Found<A>>, form_visible: bool, sharing: Option<SharedFile<F>>) -> (res: UseCaseResult<F, Error>)
    ensures
        outcome(res) == run_outcome(project, answer, form_visible, sharing),
{
    match project {
        Some(p) => {
            if !p.visible {
                return Err(UseCaseError::UseCase(Error::ProjectNotFound));
            }
        },
        None => return Err(UseCaseError::UseCase(Error::ProjectNotFound)),
    }
    let answer_visible = match &answer {
        Some(a) => a.visible,
        None => false,
    };
    if !answer_visible {
        if form_visible {
            return Err(UseCaseError::UseCase(Error::FormAnswerNotFound));
        }
        return Err(UseCaseError::UseCase(Error::FormNotFound));
    }
    let sharing = match sharing {
        Some(s) => s,
        None => return Err(UseCaseError::UseCase(Error::FileSharingNotFound)),
    };
    if let Err(k) = sharing.witness {
        return Err(UseCaseError::UseCase(Error::from_witness_error(k)));
    }
    if !sharing.file.visible {
        return Err(UseCaseError::Internal(internal_error("Condition failed: the file is visible through the sharing")));
    }
    let file = sharing.file.entity;
    Ok(file)
}

} // verus!
