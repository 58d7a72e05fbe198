//! Getting a file together with its stored object.
use vstd::prelude::*;

use crate::error::{outcome, Outcome, UseCaseError, UseCaseResult};
use crate::flow::{visible_entity, Found};

verus! {

#[derive(Debug, Clone, PartialEq, Eq, Structural)]
pub enum Error {
    NotFound,
}

/// The outcome of getting a file with its object.
pub open spec fn run_outcome<F, O>(file: Option<Found<F>>, object: Option<Found<O>>) -> Outcome<(F, O), Error> {
    match visible_entity(file) {
        None => Outcome::Refused(Error::NotFound),
        Some(f) => match object {
            None => Outcome::Failed,
            Some(o) => if o.visible { Outcome::Done((f, o.entity)) } else { Outcome::Refused(Error::NotFound) },
        },
    }
}

/// Gives the file the repository found and the object it refers to. A file
/// the user may not see, or whose object the user may not see, is reported as
/// not found; a file whose object is missing is an internal failure.
pub fn run<F, O>(file: Option<Found<F>>, object: Option<Found<O>>) -> (res: UseCaseResult<(F, O), Error>)
    ensures
        outcome(res) == run_outcome(file, object),
{
    let file = match file {
        Some(f) => {
            if !f.visible {
                return Err(UseCaseError::UseCase(Error::NotFound));
            }
            f.entity
        },
        None => return Err(UseCaseError::UseCase(Error::NotFound)),
    };
    match object {
        None => Err(UseCaseError::Internal(crate::error::internal_error("Could not find an object referenced by object_id"))),
        Some(o) => {
            if o.visible {
                Ok((file, o.entity))
            } else {
                Err(UseCaseError::UseCase(Error::NotFound))
            }
        },
    }
}

} // verus!
