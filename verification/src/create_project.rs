//! Creating a project from a pending project, by its subowner.
use vstd::prelude::*;

use crate::domain::NewProjectErrorKind;
use crate::error::{keeps_internal, outcome, Outcome, UseCaseError, UseCaseResult};
use crate::flow::{visible_entity, Found};
use crate::model::{with_owners, FileSharingId, PendingProjectId, ProjectWithOwners, RegistrationFormAnswerId, UserName};

verus! {

#[derive(Debug, Clone, Copy, PartialEq, Eq, Structural)]
pub enum Error {
    PendingProjectNotFound,
    TooManyProjects,
    NotAnsweredRegistrationForm,
    SameOwnerSubowner,
    AlreadyProjectOwner,
    AlreadyProjectSubowner,
    AlreadyPendingProjectOwner,
    OutOfCreationPeriod,
}

impl Error {
    /// The error for each reason the entity layer refuses the project; the
    /// subowner's existing assignment is what is reported.
    pub open spec fn new_project_error_of(kind: NewProjectErrorKind) -> Error {
        match kind {
            NewProjectErrorKind::TooManyProjects => Error::TooManyProjects,
            NewProjectErrorKind::NotAnsweredRegistrationForm => Error::NotAnsweredRegistrationForm,
            NewProjectErrorKind::SameOwnerSubowner => Error::SameOwnerSubowner,
            NewProjectErrorKind::AlreadyProjectOwnerSubowner => Error::AlreadyProjectOwner,
            NewProjectErrorKind::AlreadyProjectSubownerSubowner => Error::AlreadyProjectSubowner,
            NewProjectErrorKind::AlreadyPendingProjectOwnerSubowner => Error::AlreadyPendingProjectOwner,
            NewProjectErrorKind::OutOfCreationPeriod => Error::OutOfCreationPeriod,
        }
    }

    pub fn from_new_project_error(kind: NewProjectErrorKind) -> (res: Self)
        ensures
            res == Self::new_project_error_of(kind),
    {
        match kind {
            NewProjectErrorKind::TooManyProjects => Error::TooManyProjects,
            NewProjectErrorKind::NotAnsweredRegistrationForm => Error::NotAnsweredRegistrationForm,
            NewProjectErrorKind::SameOwnerSubowner => Error::SameOwnerSubowner,
            NewProjectErrorKind::AlreadyProjectOwnerSubowner => Error::AlreadyProjectOwner,
            NewProjectErrorKind::AlreadyProjectSubownerSubowner => Error::AlreadyProjectSubowner,
            NewProjectErrorKind::AlreadyPendingProjectOwnerSubowner => Error::AlreadyPendingProjectOwner,
            NewProjectErrorKind::OutOfCreationPeriod => Error::OutOfCreationPeriod,
        }
    }
}

/// What happened after the project was made: whether both owners could be
/// assigned to it, whether every file sharing of the pending project was
/// scoped to a registration form answer, and whether the project's subowner
/// is the logged-in user.
pub struct AfterCreation {
    pub owners_assigned: bool,
    pub sharings_in_answer_scope: bool,
    pub subowner_is_login_user: bool,
}

/// The outcome of creating a project.
pub open spec fn run_outcome<P, Q>(
    pending_project: Option<Found<P>>,
    project: UseCaseResult<Found<Q>, NewProjectErrorKind>,
    after: AfterCreation,
) -> Outcome<Q, Error> {
    if visible_entity(pending_project) is None {
        Outcome::Refused(Error::PendingProjectNotFound)
    } else {
        match outcome(project) {
            Outcome::Refused(k) => Outcome::Refused(Error::new_project_error_of(k)),
            Outcome::Failed => Outcome::Failed,
            Outcome::Done(p) => if after.owners_assigned && after.sharings_in_answer_scope && p.visible && after.subowner_is_login_user {
                Outcome::Done(p.entity)
            } else {
                Outcome::Failed
            },
        }
    }
}

/// Creates a project from a pending project, given the pending project, the
/// project the entity layer made of it (or why it refused), what happened
/// after, and the names of the pending project's owner and of the logged-in
/// user, who become the project's owner and subowner.
pub fn run<P, Q>(
    pending_project: Option<Found<P>>,
    project: UseCaseResult<Found<Q>, NewProjectErrorKind>,
    after: AfterCreation,
    owner: UserName,
    subowner: UserName,
) -> (res: UseCaseResult<ProjectWithOwners<Q>, Error>)
    ensures
        outcome(res) == with_owners(run_outcome(pending_project, project, after), owner, subowner),
        visible_entity(pending_project) is Some ==> keeps_internal(project, res),
{
    crate::flow::take_visible(pending_project, Error::PendingProjectNotFound)?;
    let project = match project {
        Ok(p) => p,
        Err(UseCaseError::UseCase(k)) => return Err(UseCaseError::UseCase(Error::from_new_project_error(k))),
        Err(UseCaseError::Internal(e)) => return Err(UseCaseError::Internal(e)),
    };
    crate::error::ensure(after.owners_assigned, "Failed to assign the owners to the project")?;
    crate::error::ensure(after.sharings_in_answer_scope, "Condition failed: sharing.scope().registration_form_answer().is_some()")?;
    crate::error::ensure(project.visible, "Condition failed: project.is_visible_to(&login_user)")?;
    crate::error::ensure(after.subowner_is_login_user, "Condition failed: project.subowner_id() == login_user.id()")?;
    Ok(ProjectWithOwners { project: project.entity, owner, subowner })
}

/// A change that creating a project makes to the repositories.
#[derive(Debug, Clone, Copy, PartialEq, Eq, Structural)]
pub enum Effect {
    /// Store the project the entity layer made.
    StoreProject,
    /// Store the pending project's owner, assigned as the project's owner.
    StoreOwner,
    /// Store the logged-in user, assigned as the project's subowner.
    StoreSubowner,
    /// Store an answer to a registration form, its respondent now the project.
    MoveAnswer(RegistrationFormAnswerId),
    /// Store a file sharing, its scope now the project's answer.
    MoveSharing(FileSharingId),
    /// Delete the pending project.
    DeletePendingProject(PendingProjectId),
}

/// The sharings moved to the project, in order, up to the first one not
/// scoped to a registration form answer (`false`), which stops the creation.
pub open spec fn moved_sharings(sharings: Seq<(FileSharingId, bool)>) -> Seq<Effect>
    decreases sharings.len(),
{
    if sharings.len() == 0 || !sharings[0].1 {
        seq![]
    } else {
        seq![Effect::MoveSharing(sharings[0].0)] + moved_sharings(sharings.drop_first())
    }
}

/// Whether every sharing is scoped to a registration form answer.
pub open spec fn all_in_answer_scope(sharings: Seq<(FileSharingId, bool)>) -> bool {
    forall|i: int| 0 <= i < sharings.len() ==> #[trigger] sharings[i].1
}

/// The changes creating a project makes, in order. Nothing where the pending
/// project is not found or the entity layer refuses the project. Otherwise
/// the project is stored; then, where both owners could be assigned, the
/// owner and the subowner are stored, each answer of the pending project is
/// moved to the project, each of its sharings is moved (up to the first one
/// not scoped to an answer), and, where all were, the pending project is
/// deleted.
pub open spec fn creation_effects<P, Q>(
    pending_project_id: PendingProjectId,
    pending_project: Option<Found<P>>,
    project: UseCaseResult<Found<Q>, NewProjectErrorKind>,
    owners_assigned: bool,
    answers: Seq<RegistrationFormAnswerId>,
    sharings: Seq<(FileSharingId, bool)>,
) -> Seq<Effect> {
    if visible_entity(pending_project) is None || !(project is Ok) {
        seq![]
    } else if !owners_assigned {
        seq![Effect::StoreProject]
    } else {
        seq![Effect::StoreProject, Effect::StoreOwner, Effect::StoreSubowner]
            + answers.map_values(|a: RegistrationFormAnswerId| Effect::MoveAnswer(a))
            + moved_sharings(sharings)
            + (if all_in_answer_scope(sharings) { seq![Effect::DeletePendingProject(pending_project_id)] } else { seq![] })
    }
}

/// Gives the changes creating a project makes, in the order they are made,
/// given the pending project, the project the entity layer made (or why it
/// refused), whether both owners could be assigned, the answers of the
/// pending project, and its sharings with whether each is scoped to a
/// registration form answer.
pub fn effects<P, Q>(
    pending_project_id: PendingProjectId,
    pending_project: &Option<Found<P>>,
    project: &UseCaseResult<Found<Q>, NewProjectErrorKind>,
    owners_assigned: bool,
    answers: &Vec<RegistrationFormAnswerId>,
    sharings: &Vec<(FileSharingId, bool)>,
) -> (res: Vec<Effect>)
    ensures
        res@ == creation_effects(pending_project_id, *pending_project, *project, owners_assigned, answers@, sharings@),
{
    let mut out: Vec<Effect> = Vec::new();
    let visible = match pending_project {
        Some(p) => p.visible,
        None => false,
    };
    if !visible || project.is_err() {
        return out;
    }
    out.push(Effect::StoreProject);
    if !owners_assigned {
        return out;
    }
    out.push(Effect::StoreOwner);
    out.push(Effect::StoreSubowner);
    let ghost head = out@;
    let mut i: usize = 0;
    while i < answers.len()
        invariant
            i <= answers.len(),
            out@ == head + answers@.take(i as int).map_values(|a: RegistrationFormAnswerId| Effect::MoveAnswer(a)),
        decreases answers.len() - i,
    {
        out.push(Effect::MoveAnswer(answers[i]));
        assert(answers@.take(i + 1) =~= answers@.take(i as int).push(answers@[i as int]));
        assert(answers@.take(i + 1).map_values(|a: RegistrationFormAnswerId| Effect::MoveAnswer(a))
            =~= answers@.take(i as int).map_values(|a: RegistrationFormAnswerId| Effect::MoveAnswer(a)).push(Effect::MoveAnswer(answers@[i as int])));
        i = i + 1;
    }
    assert(answers@.take(i as int) =~= answers@);
    let ghost moved_from = out@;
    assert(visible_entity(*pending_project) is Some);
    let ghost all = sharings@;
    let mut j: usize = 0;
    assert(all.skip(0) =~= all);
    while j < sharings.len()
        invariant
            visible_entity(*pending_project) is Some && project is Ok && owners_assigned,
            moved_from == seq![Effect::StoreProject, Effect::StoreOwner, Effect::StoreSubowner]
                + answers@.map_values(|a: RegistrationFormAnswerId| Effect::MoveAnswer(a)),
            all == sharings@,
            j <= all.len(),
            moved_from + moved_sharings(all) == out@ + moved_sharings(all.skip(j as int)),
            forall|k: int| 0 <= k < j ==> #[trigger] all[k].1,
        decreases all.len() - j,
    {
        let (id, in_scope) = sharings[j];
        assert(all.skip(j as int)[0] == all[j as int]);
        assert(all.skip(j as int).drop_first() =~= all.skip(j + 1));
        if !in_scope {
            assert(moved_sharings(all.skip(j as int)) =~= Seq::<Effect>::empty());
            assert(!all_in_answer_scope(all));
            assert(out@ =~= moved_from + moved_sharings(all) + Seq::<Effect>::empty());
            return out;
        }
        let ghost prev = out@;
        out.push(Effect::MoveSharing(id));
        assert(out@ + moved_sharings(all.skip(j + 1)) =~= prev + moved_sharings(all.skip(j as int)));
        j = j + 1;
    }
    assert(all.skip(j as int) =~= Seq::<(FileSharingId, bool)>::empty());
    assert(all_in_answer_scope(all));
    assert(out@ + Seq::<Effect>::empty() =~= moved_from + moved_sharings(all));
    out.push(Effect::DeletePendingProject(pending_project_id));
    out
}

/// Nothing is changed where the pending project is not found or the entity
/// layer refuses to make the project, and the pending project is deleted
/// only where the project could be made and every answer and sharing moved.
pub proof fn lemma_changes_only_after_acceptance<P, Q>(
    pending_project_id: PendingProjectId,
    pending_project: Option<Found<P>>,
    project: UseCaseResult<Found<Q>, NewProjectErrorKind>,
    owners_assigned: bool,
    answers: Seq<RegistrationFormAnswerId>,
    sharings: Seq<(FileSharingId, bool)>,
    after: AfterCreation,
)
    ensures
        run_outcome(pending_project, project, after) is Refused
            ==> creation_effects(pending_project_id, pending_project, project, owners_assigned, answers, sharings).len() == 0,
        creation_effects(pending_project_id, pending_project, project, owners_assigned, answers, sharings)
            .contains(Effect::DeletePendingProject(pending_project_id))
            ==> visible_entity(pending_project) is Some && project is Ok && owners_assigned && all_in_answer_scope(sharings),
{
    let e = creation_effects(pending_project_id, pending_project, project, owners_assigned, answers, sharings);
    if e.contains(Effect::DeletePendingProject(pending_project_id)) {
        let k = choose|k: int| 0 <= k < e.len() && e[k] == Effect::DeletePendingProject(pending_project_id);
        if visible_entity(pending_project) is Some && project is Ok && owners_assigned && !all_in_answer_scope(sharings) {
            let head = seq![Effect::StoreProject, Effect::StoreOwner, Effect::StoreSubowner]
                + answers.map_values(|a: RegistrationFormAnswerId| Effect::MoveAnswer(a));
            lemma_moved_sharings_only_moves(sharings);
            assert(e =~= head + moved_sharings(sharings) + Seq::<Effect>::empty());
            if k < head.len() {
                if k >= 3 {
                    assert(head[k] == Effect::MoveAnswer(answers[k - 3]));
                }
            } else {
                assert(moved_sharings(sharings)[k - head.len()] == e[k]);
            }
        }
    }
}

proof fn lemma_moved_sharings_only_moves(sharings: Seq<(FileSharingId, bool)>)
    ensures
        forall|k: int| 0 <= k < moved_sharings(sharings).len() ==> #[trigger] moved_sharings(sharings)[k] is MoveSharing,
    decreases sharings.len(),
{
    if sharings.len() > 0 && sharings[0].1 {
        lemma_moved_sharings_only_moves(sharings.drop_first());
        let m = moved_sharings(sharings);
        assert forall|k: int| 0 <= k < m.len() implies #[trigger] m[k] is MoveSharing by {
            if k > 0 {
                assert(m[k] == moved_sharings(sharings.drop_first())[k - 1]);
            }
        }
    }
}

/// Where the pending project is found, each refusal of the entity layer is
/// reported under its own name: two different refusals are never reported
/// alike, none is reported as a missing pending project, and a pending
/// project that has not answered every registration form, or a creation
/// outside the creation period, is reported as such.
pub proof fn lemma_new_project_refusals_reported<P, Q>(
    pending_project: Option<Found<P>>,
    after: AfterCreation,
    k1: NewProjectErrorKind,
    k2: NewProjectErrorKind,
)
    requires
        visible_entity(pending_project) is Some,
    ensures
        run_outcome(pending_project, Err::<Found<Q>, UseCaseError<NewProjectErrorKind>>(UseCaseError::UseCase(k1)), after)
            == run_outcome(pending_project, Err::<Found<Q>, UseCaseError<NewProjectErrorKind>>(UseCaseError::UseCase(k2)), after)
            ==> k1 == k2,
        run_outcome(pending_project, Err::<Found<Q>, UseCaseError<NewProjectErrorKind>>(UseCaseError::UseCase(k1)), after)
            != Outcome::<Q, Error>::Refused(Error::PendingProjectNotFound),
        run_outcome(pending_project, Err::<Found<Q>, UseCaseError<NewProjectErrorKind>>(
            UseCaseError::UseCase(NewProjectErrorKind::NotAnsweredRegistrationForm)), after)
            == Outcome::<Q, Error>::Refused(Error::NotAnsweredRegistrationForm),
        run_outcome(pending_project, Err::<Found<Q>, UseCaseError<NewProjectErrorKind>>(
            UseCaseError::UseCase(NewProjectErrorKind::OutOfCreationPeriod)), after)
            == Outcome::<Q, Error>::Refused(Error::OutOfCreationPeriod),
        run_outcome(pending_project, Err::<Found<Q>, UseCaseError<NewProjectErrorKind>>(
            UseCaseError::UseCase(NewProjectErrorKind::TooManyProjects)), after)
            == Outcome::<Q, Error>::Refused(Error::TooManyProjects),
        run_outcome(pending_project, Err::<Found<Q>, UseCaseError<NewProjectErrorKind>>(
            UseCaseError::UseCase(NewProjectErrorKind::SameOwnerSubowner)), after)
            == Outcome::<Q, Error>::Refused(Error::SameOwnerSubowner),
{
}

} // verus!
