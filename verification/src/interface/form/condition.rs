use vstd::prelude::*;

use crate::domain::ConditionProjectsErrorKind;
use crate::interface::project_query::ProjectQueryError;

verus! {

/// Why the condition of a form is refused.
#[derive(Debug, Clone, Copy, PartialEq, Eq, Structural)]
pub enum FormConditionError {
    TooManyIncludeProjects,
    DuplicatedIncludeProjects,
    TooManyExcludeProjects,
    DuplicatedExcludeProjects,
    InvalidQuery(ProjectQueryError),
}

impl FormConditionError {
    pub fn from_query_error(err: ProjectQueryError) -> (res: Self)
        ensures
            res == FormConditionError::InvalidQuery(err),
    {
        FormConditionError::InvalidQuery(err)
    }

    /// The error for refused included projects.
    pub open spec fn includes_error_of(kind: ConditionProjectsErrorKind) -> FormConditionError {
        match kind {
            ConditionProjectsErrorKind::TooLong => FormConditionError::TooManyIncludeProjects,
            ConditionProjectsErrorKind::Duplicated(_) => FormConditionError::DuplicatedIncludeProjects,
        }
    }

    /// The error for refused excluded projects.
    pub open spec fn excludes_error_of(kind: ConditionProjectsErrorKind) -> FormConditionError {
        match kind {
            ConditionProjectsErrorKind::TooLong => FormConditionError::TooManyExcludeProjects,
            ConditionProjectsErrorKind::Duplicated(_) => FormConditionError::DuplicatedExcludeProjects,
        }
    }

    pub fn from_includes_error(kind: ConditionProjectsErrorKind) -> (res: Self)
        ensures
            res == Self::includes_error_of(kind),
    {
        match kind {
            ConditionProjectsErrorKind::TooLong => FormConditionError::TooManyIncludeProjects,
            ConditionProjectsErrorKind::Duplicated(_) => FormConditionError::DuplicatedIncludeProjects,
        }
    }

    pub fn from_excludes_error(kind: ConditionProjectsErrorKind) -> (res: Self)
        ensures
            res == Self::excludes_error_of(kind),
    {
        match kind {
            ConditionProjectsErrorKind::TooLong => FormConditionError::TooManyExcludeProjects,
            ConditionProjectsErrorKind::Duplicated(_) => FormConditionError::DuplicatedExcludeProjects,
        }
    }
}

/// Decides on the condition of a form, given the query as decided and the
/// entity layer's verdicts on the included and on the excluded projects: the
/// query first, then the included, then the excluded projects.
pub fn to_form_condition<Q, S>(
    query: Result<Q, ProjectQueryError>,
    includes: Result<S, ConditionProjectsErrorKind>,
    excludes: Result<S, ConditionProjectsErrorKind>,
) -> (res: Result<(Q, S, S), FormConditionError>)
    ensures
        match (query, includes, excludes) {
            (Err(e), _, _) => res == Err::<(Q, S, S), FormConditionError>(FormConditionError::InvalidQuery(e)),
            (Ok(_), Err(k), _) => res == Err::<(Q, S, S), FormConditionError>(FormConditionError::includes_error_of(k)),
            (Ok(_), Ok(_), Err(k)) => res == Err::<(Q, S, S), FormConditionError>(FormConditionError::excludes_error_of(k)),
            (Ok(q), Ok(i), Ok(x)) => res == Ok::<(Q, S, S), FormConditionError>((q, i, x)),
        },
{
    let query = match query {
        Ok(q) => q,
        Err(e) => return Err(FormConditionError::from_query_error(e)),
    };
    let includes = match includes {
        Ok(i) => i,
        Err(k) => return Err(FormConditionError::from_includes_error(k)),
    };
    let excludes = match excludes {
        Ok(x) => x,
        Err(k) => return Err(FormConditionError::from_excludes_error(k)),
    };
    Ok((query, includes, excludes))
}

/// Refused included and excluded projects are told apart, and for each, too
/// many projects apart from a duplicated one.
pub proof fn lemma_condition_refusals_distinct(k1: ConditionProjectsErrorKind, k2: ConditionProjectsErrorKind)
    ensures
        FormConditionError::includes_error_of(k1) != FormConditionError::excludes_error_of(k2),
        FormConditionError::includes_error_of(k1) == FormConditionError::includes_error_of(k2)
            <==> ((k1 is TooLong) == (k2 is TooLong)),
        FormConditionError::excludes_error_of(k1) == FormConditionError::excludes_error_of(k2)
            <==> ((k1 is TooLong) == (k2 is TooLong)),
{
}

} // verus!
