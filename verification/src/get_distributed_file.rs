//! Getting the file a distribution gives a project.
use vstd::prelude::*;

use crate::error::{internal_error, outcome, Outcome, UseCaseError, UseCaseResult};
use crate::flow::{entities, take_visible, visible_entity, Found};
use crate::model::{FileDistributionId, ProjectId};

verus! {

/// Which entities to look up.
#[derive(Debug, Clone, Copy, PartialEq, Eq, Structural)]
pub struct Input {
    pub project_id: ProjectId,
    pub distribution_id: FileDistributionId,
}

#[derive(Debug, Clone, PartialEq, Eq, Structural)]
pub enum Error {
    ProjectNotFound,
    FileDistributionNotFound,
}

impl Error {
    /// A distribution that does not target the project is reported as not found.
    pub fn from_not_targeted_error() -> (res: Self)
        ensures
            res is FileDistributionNotFound,
    {
        Error::FileDistributionNotFound
    }
}

/// The outcome of getting a distributed file: `distributed` is what the
/// distribution gives the project (`None` where it does not target it).
pub open spec fn run_outcome<P, D, X>(project: Option<Found<P>>, distribution: Option<D>, distributed: Option<Found<X>>) -> Outcome<X, Error> {
    match visible_entity(project) {
        None => Outcome::Refused(Error::ProjectNotFound),
        Some(_) => match distribution {
            None => Outcome::Refused(Error::FileDistributionNotFound),
            Some(_) => match distributed {
                None => Outcome::Refused(Error::FileDistributionNotFound),
                Some(f) => if f.visible { Outcome::Done(f.entity) } else { Outcome::Failed },
            },
        },
    }
}

/// Gives the file a distribution gives a project.
pub fn run<P, D, X>(project: Option<Found<P>>, distribution: Option<D>, distributed: Option<Found<X>>) -> (res: UseCaseResult<X, Error>)
    ensures
        outcome(res) == run_outcome(project, distribution, distributed),
{
    take_visible(project, Error::ProjectNotFound)?;
    if distribution.is_none() {
        return Err(UseCaseError::UseCase(Error::FileDistributionNotFound));
    }
    match distributed {
        None => Err(UseCaseError::UseCase(Error::from_not_targeted_error())),
        Some(f) => {
            if f.visible {
                Ok(f.entity)
            } else {
                Err(UseCaseError::Internal(internal_error("Condition failed: the distributed file is visible")))
            }
        },
    }
}

} // verus!
