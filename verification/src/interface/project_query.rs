use vstd::prelude::*;

use crate::domain::ProjectQueryErrorKind;
use crate::flow::{collect_results, first_error, ok_values};

verus! {

/// Why a project query is refused.
#[derive(Debug, Clone, Copy, PartialEq, Eq, Structural)]
pub enum ProjectQueryError {
    TooBigQuery,
    DuplicatedAttributes,
}

impl ProjectQueryError {
    /// A disjunction too big is reported as a query too big.
    pub fn from_query_error(kind: ProjectQueryErrorKind) -> (res: Self)
        ensures
            res == ProjectQueryError::TooBigQuery,
    {
        match kind {
            ProjectQueryErrorKind::TooBigDisjunction => ProjectQueryError::TooBigQuery,
        }
    }

    /// Attributes given twice in a conjunction.
    pub fn from_attributes_error() -> (res: Self)
        ensures
            res == ProjectQueryError::DuplicatedAttributes,
    {
        ProjectQueryError::DuplicatedAttributes
    }
}

/// Decides on a conjunction of a query, given whether the entity layer
/// accepted its attributes (it refuses an attribute given twice).
pub fn to_project_query_conjunction<C>(conjunction: C, attributes_accepted: bool) -> (res: Result<C, ProjectQueryError>)
    ensures
        res == (if attributes_accepted {
            Ok::<C, ProjectQueryError>(conjunction)
        } else {
            Err(ProjectQueryError::DuplicatedAttributes)
        }),
{
    if attributes_accepted {
        Ok(conjunction)
    } else {
        Err(ProjectQueryError::from_attributes_error())
    }
}

/// Decides on a query, given each of its conjunctions as decided and the
/// entity layer's verdict on the disjunction: the first refused conjunction
/// decides, then the verdict.
pub fn to_project_query<C>(conjunctions: Vec<Result<C, ProjectQueryError>>, disjunction: Result<(), ProjectQueryErrorKind>) -> (res: Result<Vec<C>, ProjectQueryError>)
    ensures
        match first_error(conjunctions@) {
            Some(e) => res == Err::<Vec<C>, ProjectQueryError>(e),
            None => match disjunction {
                Err(_) => res == Err::<Vec<C>, ProjectQueryError>(ProjectQueryError::TooBigQuery),
                Ok(_) => res matches Ok(v) && v@ == ok_values(conjunctions@),
            },
        },
{
    let conjunctions = collect_results(conjunctions)?;
    match disjunction {
        Err(k) => Err(ProjectQueryError::from_query_error(k)),
        Ok(_) => Ok(conjunctions),
    }
}

} // verus!
