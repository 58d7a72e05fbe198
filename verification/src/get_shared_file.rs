//! Getting a file through a sharing of it.
use vstd::prelude::*;

use crate::domain::ToWitnessErrorKind;
use crate::error::{internal_error, outcome, Outcome, UseCaseError, UseCaseResult};
use crate::flow::SharedFile;

verus! {

#[derive(Debug, Clone, PartialEq, Eq, Structural)]
pub enum Error {
    NotFound,
    InvalidSharing,
}

impl Error {
    /// A sharing out of scope is reported as NotFound; an expired or revoked one as an invalid sharing.
    pub open spec fn witness_error_of(kind: ToWitnessErrorKind) -> Error {
        match kind {
            ToWitnessErrorKind::OutOfScope => Error::NotFound,
            ToWitnessErrorKind::ExpiredSharing => Error::InvalidSharing,
            ToWitnessErrorKind::RevokedSharing => Error::InvalidSharing,
        }
    }

    pub fn from_witness_error(kind: ToWitnessErrorKind) -> (res: Self)
        ensures
            res == Self::witness_error_of(kind),
    {
        match kind {
            ToWitnessErrorKind::OutOfScope => Error::NotFound,
            ToWitnessErrorKind::ExpiredSharing => Error::InvalidSharing,
            ToWitnessErrorKind::RevokedSharing => Error::InvalidSharing,
        }
    }
}

/// The outcome of getting a shared file.
pub open spec fn run_outcome<F>(sharing: Option<SharedFile<F>>) -> Outcome<F, Error> {
    match sharing {
            None => Outcome::Refused(Error::NotFound),
            Some(s) => match s.witness {
                Err(k) => Outcome::Refused(Error::witness_error_of(k)),
                Ok(()) => if !s.file.visible { Outcome::Failed } else { Outcome::Done(s.file.entity) },
            },
        }
}

/// Gives the file of the sharing the repository found, where the sharing
/// grants the logged-in user access to it.
pub fn run<F>(sharing: Option<SharedFile<F>>) -> (res: UseCaseResult<F, Error>)
    ensures
        outcome(res) == run_outcome(sharing),
{
    let sharing = match sharing {
        Some(s) => s,
        None => return Err(UseCaseError::UseCase(Error::NotFound)),
    };
    if let Err(k) = sharing.witness {
        return Err(UseCaseError::UseCase(Error::from_witness_error(k)));
    }
    if !sharing.file.visible {
        return Err(UseCaseError::Internal(internal_error("Condition failed: the file is visible through the sharing")));
    }
    let file = sharing.file.entity;
    Ok(file)
}

/// A sharing that gives no access to its file is reported alike by every
/// operation that reads a file through a sharing: as an invalid sharing
/// exactly where it has expired or been revoked, and otherwise (a file out of
/// its scope) as a file or sharing that is not found.
pub proof fn lemma_witness_refusals_agree(k: ToWitnessErrorKind)
    ensures
        (Error::witness_error_of(k) is InvalidSharing) <==> !(k is OutOfScope),
        (crate::get_project_form_answer_shared_file::Error::witness_error_of(k) is InvalidSharing) <==> !(k is OutOfScope),
        (crate::get_project_registration_form_answer_shared_file::Error::witness_error_of(k) is InvalidSharing)
            <==> !(k is OutOfScope),
        (crate::get_project_shared_file_object::Error::witness_error_of(k) is InvalidSharing) <==> !(k is OutOfScope),
        (crate::get_form_answer_shared_file_object::Error::witness_error_of(k) is InvalidSharing) <==> !(k is OutOfScope),
        (k is OutOfScope) ==> Error::witness_error_of(k) is NotFound,
        (k is OutOfScope) ==> crate::get_project_form_answer_shared_file::Error::witness_error_of(k) is FileSharingNotFound,
        (k is OutOfScope) ==> crate::get_project_registration_form_answer_shared_file::Error::witness_error_of(k) is FileSharingNotFound,
        (k is OutOfScope) ==> crate::get_project_shared_file_object::Error::witness_error_of(k) is FileSharingNotFound,
        (k is OutOfScope) ==> crate::get_form_answer_shared_file_object::Error::witness_error_of(k) is FileSharingNotFound,
{
}

} // verus!
