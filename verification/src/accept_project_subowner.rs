//! Accepting to be the subowner of a pending project, which makes it a project.
use vstd::prelude::*;

use crate::error::{keeps_internal, outcome, Outcome, UseCaseError, UseCaseResult};
use crate::flow::{visible_entity, Found};
use crate::model::{with_owners, PendingProjectId, ProjectWithOwners, UserName};

verus! {

#[derive(Debug, Clone, Copy, PartialEq, Eq, Structural)]
pub enum Error {
    PendingProjectNotFound,
    TooManyProjects,
}

impl Error {
    /// The entity layer refuses a project beyond the number allowed.
    pub fn from_accept_error() -> (res: Self)
        ensures
            res == Error::TooManyProjects,
    {
        Error::TooManyProjects
    }
}

/// The outcome of accepting a pending project's subownership: `project` is
/// the project made, or `None` where there would be too many projects.
pub open spec fn run_outcome<P, Q>(pending_project: Option<Found<P>>, project: UseCaseResult<Option<Found<Q>>, ()>) -> Outcome<Q, Error> {
    if visible_entity(pending_project) is None {
        Outcome::Refused(Error::PendingProjectNotFound)
    } else {
        match outcome(project) {
            Outcome::Done(None) => Outcome::Refused(Error::TooManyProjects),
            Outcome::Done(Some(p)) => if p.visible { Outcome::Done(p.entity) } else { Outcome::Failed },
            _ => Outcome::Failed,
        }
    }
}

/// Makes the logged-in user the subowner of a pending project, given the
/// pending project, the project the entity layer made of it, and the names
/// of the pending project's author and of the logged-in user, who are the
/// project's owner and subowner.
pub fn run<P, Q>(
    pending_project: Option<Found<P>>,
    project: UseCaseResult<Option<Found<Q>>, ()>,
    owner: UserName,
    subowner: UserName,
) -> (res: UseCaseResult<ProjectWithOwners<Q>, Error>)
    ensures
        outcome(res) == with_owners(run_outcome(pending_project, project), owner, subowner),
        visible_entity(pending_project) is Some ==> keeps_internal(project, res),
{
    crate::flow::take_visible(pending_project, Error::PendingProjectNotFound)?;
    match project {
        Ok(Some(p)) => {
            let q = crate::flow::expect_visible(p)?;
            Ok(ProjectWithOwners { project: q, owner, subowner })
        },
        Ok(None) => Err(UseCaseError::UseCase(Error::from_accept_error())),
        Err(UseCaseError::Internal(e)) => Err(UseCaseError::Internal(e)),
        Err(UseCaseError::UseCase(_)) => Err(UseCaseError::Internal(crate::error::internal_error("Unexpected refusal"))),
    }
}

/// A change that accepting a subownership makes to the repositories.
#[derive(Debug, Clone, Copy, PartialEq, Eq, Structural)]
pub enum Effect {
    /// Delete the pending project.
    DeletePendingProject(PendingProjectId),
    /// Store the project the entity layer made.
    StoreProject,
}

/// The changes accepting a subownership makes, in order: nothing where the
/// pending project is not found; otherwise the pending project is deleted,
/// then the project stored where the entity layer made one.
pub open spec fn accept_effects<P, Q>(
    pending_project_id: PendingProjectId,
    pending_project: Option<Found<P>>,
    project: UseCaseResult<Option<Found<Q>>, ()>,
) -> Seq<Effect> {
    if visible_entity(pending_project) is None {
        seq![]
    } else if project matches Ok(Some(_)) {
        seq![Effect::DeletePendingProject(pending_project_id), Effect::StoreProject]
    } else {
        seq![Effect::DeletePendingProject(pending_project_id)]
    }
}

/// Gives the changes accepting a subownership makes, in the order they are
/// made, from the same answers `run` decides on.
pub fn effects<P, Q>(
    pending_project_id: PendingProjectId,
    pending_project: &Option<Found<P>>,
    project: &UseCaseResult<Option<Found<Q>>, ()>,
) -> (res: Vec<Effect>)
    ensures
        res@ == accept_effects(pending_project_id, *pending_project, *project),
{
    let mut out: Vec<Effect> = Vec::new();
    let visible = match pending_project {
        Some(p) => p.visible,
        None => false,
    };
    if !visible {
        return out;
    }
    out.push(Effect::DeletePendingProject(pending_project_id));
    if let Ok(Some(_)) = project {
        out.push(Effect::StoreProject);
    }
    out
}

/// A pending project that is not found is neither deleted nor made a
/// project; a project is stored only where the entity layer made one.
pub proof fn lemma_refusal_changes<P, Q>(
    pending_project_id: PendingProjectId,
    pending_project: Option<Found<P>>,
    project: UseCaseResult<Option<Found<Q>>, ()>,
)
    ensures
        run_outcome(pending_project, project) == Outcome::<Q, Error>::Refused(Error::PendingProjectNotFound)
            ==> accept_effects(pending_project_id, pending_project, project).len() == 0,
        accept_effects(pending_project_id, pending_project, project).contains(Effect::StoreProject)
            <==> (visible_entity(pending_project) is Some && project matches Ok(Some(_))),
{
    let e = accept_effects(pending_project_id, pending_project, project);
    if visible_entity(pending_project) is Some && !(project matches Ok(Some(_))) {
        assert(e[0] != Effect::StoreProject);
    }
    if visible_entity(pending_project) is Some && project matches Ok(Some(_)) {
        assert(e[1] == Effect::StoreProject);
    }
}

} // verus!
