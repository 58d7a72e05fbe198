//! Getting the object of a file shared with a project.
use vstd::prelude::*;

use crate::domain::ToWitnessErrorKind;
use crate::error::{internal_error, outcome, Outcome, UseCaseError, UseCaseResult};
use crate::flow::{require_outcome, require_visible, visible_entity, Found, SharedFile};
use crate::model::{FileSharingId, ProjectId};

verus! {

/// Which entities to look up.
#[derive(Debug, Clone, Copy, PartialEq, Eq, Structural)]
pub struct Input {
    pub project_id: ProjectId,
    pub sharing_id: FileSharingId,
}

#[derive(Debug, Clone, PartialEq, Eq, Structural)]
pub enum Error {
    ProjectNotFound,
    FileSharingNotFound,
    InvalidSharing,
}

impl Error {
    /// A sharing out of scope is reported as FileSharingNotFound; an expired or revoked one as an invalid sharing.
    pub open spec fn witness_error_of(kind: ToWitnessErrorKind) -> Error {
        match kind {
            ToWitnessErrorKind::OutOfScope => Error::FileSharingNotFound,
            ToWitnessErrorKind::ExpiredSharing => Error::InvalidSharing,
            ToWitnessErrorKind::RevokedSharing => Error::InvalidSharing,
        }
    }

    pub fn from_witness_error(kind: ToWitnessErrorKind) -> (res: Self)
        ensures
            res == Self::witness_error_of(kind),
    {
        match kind {
            ToWitnessErrorKind::OutOfScope => Error::FileSharingNotFound,
            ToWitnessErrorKind::ExpiredSharing => Error::InvalidSharing,
            ToWitnessErrorKind::RevokedSharing => Error::InvalidSharing,
        }
    }
}

/// The outcome of getting the object of a file shared with a project.
pub open spec fn run_outcome<P, F, O>(project: Option<Found<P>>, sharing: Option<SharedFile<F>>, object: Option<Found<O>>) -> Outcome<(F, O), Error> {
    match visible_entity(project) {
        None => Outcome::Refused(Error::ProjectNotFound),
        Some(_) => match sharing {
            None => Outcome::Refused(Error::FileSharingNotFound),
            Some(s) => match s.witness {
                Err(k) => Outcome::Refused(Error::witness_error_of(k)),
                Ok(()) => if !s.file.visible { Outcome::Failed } else { match require_outcome::<O, Error>(object) { Outcome::Done(o) => Outcome::Done((s.file.entity, o)), _ => Outcome::Failed } },
            },
        },
    }
}

/// Gives the file and object of a sharing, where the project is visible to
/// the logged-in user and the sharing grants access within the project. The
/// witness of `sharing` is the sharing checked against the project.
pub fn run<P, F, O>(project: Option<Found<P>>, sharing: Option<SharedFile<F>>, object: Option<Found<O>>) -> (res: UseCaseResult<(F, O), Error>)
    ensures
        outcome(res) == run_outcome(project, sharing, object),
{
    match project {
        Some(p) => {
            if !p.visible {
                return Err(UseCaseError::UseCase(Error::ProjectNotFound));
            }
        },
        None => return Err(UseCaseError::UseCase(Error::ProjectNotFound)),
    }
    let sharing = match sharing {
        Some(s) => s,
        None => return Err(UseCaseError::UseCase(Error::FileSharingNotFound)),
    };
    if let Err(k) = sharing.witness {
        return Err(UseCaseError::UseCase(Error::from_witness_error(k)));
    }
    if !sharing.file.visible {
        return Err(UseCaseError::Internal(internal_error("Condition failed: the file is visible through the sharing")));
    }
    let file = sharing.file.entity;
    let object = require_visible(object)?;
    Ok((file, object))
}

} // verus!
