use std::convert::Infallible;

use sos21_use_case::domain::{
    DisplayIdErrorKind, DistributionFilesErrorKind, EmailAddressErrorKind, NewProjectErrorKind,
    NewUserInvitationErrorKind, NonSharableFileError, ToWitnessErrorKind,
};
use sos21_use_case::error::{internal_error, InternalError};
use sos21_use_case::flow::{Found, SharedFile};
use sos21_use_case::model::{
    Creation, FileDistributionId, FileId, ObjectId, PersonName, UserId, UserName, FileSharingId, PendingProjectId, ProjectCategory, ProjectId, RegistrationFormAnswerId, UserAssignment,
    UserInvitationRole, UserRole,
};
use sos21_use_case::UseCaseError;
use sos21_use_case::{
    accept_project_subowner, assign_user_role_to_email, check_project_display_id_status,
    create_file, create_project, distribute_files, get_distributed_file, get_file_object,
    get_form, get_login_user, get_project_by_code, get_project_by_display_id,
    get_project_creation_availability, get_project_form, get_project_form_answer, get_shared_file,
    get_user, get_user_file_usage, get_user_invitation, get_user_project, invite_user,
    list_all_projects, list_distributed_files, list_form_answers, list_user_file_sharings,
};

fn found<T>(entity: T) -> Option<Found<T>> {
    Some(Found { entity, visible: true })
}

fn hidden<T>(entity: T) -> Option<Found<T>> {
    Some(Found { entity, visible: false })
}

fn internal<E>() -> UseCaseError<E> {
    UseCaseError::Internal(InternalError { message: "repository failed".to_string() })
}

// ---------------------------------------------------------------- get_user

#[test]
fn test_get_user_found() {
    assert!(matches!(get_user::run(found(3u8)), Ok(3)));
}

#[test]
fn test_get_user_missing_and_hidden_are_not_found() {
    assert!(matches!(get_user::run::<u8>(None), Err(UseCaseError::UseCase(get_user::Error::NotFound))));
    assert!(matches!(get_user::run(hidden(3u8)), Err(UseCaseError::UseCase(get_user::Error::NotFound))));
}

#[test]
fn test_get_login_user() {
    assert!(matches!(get_login_user::run("me"), Ok("me")));
}

// ---------------------------------------------------------------- get_form

#[test]
fn test_get_form_requires_permission() {
    assert!(matches!(
        get_form::run(false, found(1u8)),
        Err(UseCaseError::UseCase(get_form::Error::InsufficientPermissions))
    ));
    assert!(matches!(get_form::run(true, found(1u8)), Ok(1)));
    assert!(matches!(get_form::run::<u8>(true, None), Err(UseCaseError::UseCase(get_form::Error::NotFound))));
}

#[test]
fn test_get_user_invitation_hidden_is_internal() {
    assert!(matches!(get_user_invitation::run(true, hidden(1u8)), Err(UseCaseError::Internal(_))));
    assert!(matches!(
        get_user_invitation::run::<u8>(true, None),
        Err(UseCaseError::UseCase(get_user_invitation::Error::NotFound))
    ));
    assert!(matches!(
        get_user_invitation::run(false, found(1u8)),
        Err(UseCaseError::UseCase(get_user_invitation::Error::InsufficientPermissions))
    ));
}

// ---------------------------------------------------------------- projects

#[test]
fn test_get_project_by_code() {
    assert!(matches!(get_project_by_code::run(false, found(1u8), true), Err(UseCaseError::UseCase(get_project_by_code::Error::InvalidCode))));
    assert!(matches!(get_project_by_code::run(true, found(1u8), true), Ok(1)));
    assert!(matches!(get_project_by_code::run(true, found(1u8), false), Err(UseCaseError::UseCase(get_project_by_code::Error::NotFound))));
    assert!(matches!(get_project_by_code::run(true, hidden(1u8), true), Err(UseCaseError::UseCase(get_project_by_code::Error::NotFound))));
    assert!(matches!(get_project_by_code::run::<u8>(true, None, true), Err(UseCaseError::UseCase(get_project_by_code::Error::NotFound))));
}

#[test]
fn test_get_project_by_display_id() {
    assert!(matches!(get_project_by_display_id::run(false, found(1u8)), Err(UseCaseError::UseCase(get_project_by_display_id::Error::InvalidDisplayId))));
    assert!(matches!(get_project_by_display_id::run(true, found(1u8)), Ok(1)));
    assert!(matches!(get_project_by_display_id::run(true, hidden(1u8)), Err(UseCaseError::UseCase(get_project_by_display_id::Error::NotFound))));
}

#[test]
fn test_get_user_project() {
    let owner = Some(UserAssignment::ProjectOwner(ProjectId(1)));
    let subowner = Some(UserAssignment::ProjectSubowner(ProjectId(1)));
    assert!(matches!(get_user_project::run(owner, found(5u8)), Ok(5)));
    assert!(matches!(get_user_project::run(subowner, found(5u8)), Ok(5)));
    assert!(matches!(get_user_project::run::<u8>(None, None), Err(UseCaseError::UseCase(get_user_project::Error::NotFound))));
    assert!(matches!(get_user_project::run::<u8>(owner, None), Err(UseCaseError::Internal(_))));
    assert!(matches!(get_user_project::run(owner, hidden(5u8)), Err(UseCaseError::Internal(_))));
}

#[test]
fn test_list_all_projects() {
    let list = vec![Found { entity: 1u8, visible: true }, Found { entity: 2u8, visible: true }];
    assert_eq!(list_all_projects::run(true, list).ok().unwrap(), vec![1, 2]);
    let list = vec![Found { entity: 1u8, visible: true }];
    assert!(matches!(list_all_projects::run(false, list), Err(UseCaseError::UseCase(list_all_projects::Error::InsufficientPermissions))));
    let list = vec![Found { entity: 1u8, visible: true }, Found { entity: 2u8, visible: false }];
    assert!(matches!(list_all_projects::run(true, list), Err(UseCaseError::Internal(_))));
}

#[test]
fn test_get_project_form() {
    assert!(matches!(get_project_form::run(found(1u8), Some(2u8), true, true), Ok(2)));
    assert!(matches!(get_project_form::run(found(1u8), Some(2u8), false, true), Err(UseCaseError::UseCase(get_project_form::Error::FormNotFound))));
    assert!(matches!(get_project_form::run(found(1u8), Some(2u8), true, false), Err(UseCaseError::UseCase(get_project_form::Error::FormNotFound))));
    assert!(matches!(get_project_form::run::<u8, u8>(found(1), None, true, true), Err(UseCaseError::UseCase(get_project_form::Error::FormNotFound))));
    assert!(matches!(get_project_form::run(hidden(1u8), Some(2u8), true, true), Err(UseCaseError::UseCase(get_project_form::Error::ProjectNotFound))));
}

#[test]
fn test_get_project_form_answer() {
    assert!(matches!(get_project_form_answer::run(found(1u8), found(2u8), true), Ok(2)));
    assert!(matches!(get_project_form_answer::run::<u8, u8>(found(1), None, true), Err(UseCaseError::UseCase(get_project_form_answer::Error::FormAnswerNotFound))));
    assert!(matches!(get_project_form_answer::run::<u8, u8>(found(1), None, false), Err(UseCaseError::UseCase(get_project_form_answer::Error::FormNotFound))));
    assert!(matches!(get_project_form_answer::run(found(1u8), hidden(2u8), true), Err(UseCaseError::UseCase(get_project_form_answer::Error::FormAnswerNotFound))));
    assert!(matches!(get_project_form_answer::run::<u8, u8>(None, None, true), Err(UseCaseError::UseCase(get_project_form_answer::Error::ProjectNotFound))));
}

#[test]
fn test_list_form_answers() {
    assert!(matches!(list_form_answers::run::<u8>(true, vec![], false), Err(UseCaseError::UseCase(list_form_answers::Error::FormNotFound))));
    assert_eq!(list_form_answers::run::<u8>(true, vec![], true).ok().unwrap(), Vec::<u8>::new());
    let answers = vec![Found { entity: 4u8, visible: true }];
    assert_eq!(list_form_answers::run(true, answers, false).ok().unwrap(), vec![4]);
    assert!(matches!(list_form_answers::run::<u8>(false, vec![], true), Err(UseCaseError::UseCase(list_form_answers::Error::InsufficientPermissions))));
}

// ---------------------------------------------------------------- files

#[test]
fn test_get_file_object() {
    assert!(matches!(get_file_object::run(found(1u8), found(2u8)), Ok((1, 2))));
    assert!(matches!(get_file_object::run::<u8, u8>(None, found(2)), Err(UseCaseError::UseCase(get_file_object::Error::NotFound))));
    assert!(matches!(get_file_object::run(found(1u8), hidden(2u8)), Err(UseCaseError::UseCase(get_file_object::Error::NotFound))));
    assert!(matches!(get_file_object::run::<u8, u8>(found(1), None), Err(UseCaseError::Internal(_))));
}

#[test]
fn test_get_shared_file() {
    let ok = SharedFile { witness: Ok(()), file: Found { entity: 9u8, visible: true } };
    assert!(matches!(get_shared_file::run(Some(ok)), Ok(9)));
    let out_of_scope = SharedFile { witness: Err(ToWitnessErrorKind::OutOfScope), file: Found { entity: 9u8, visible: true } };
    assert!(matches!(get_shared_file::run(Some(out_of_scope)), Err(UseCaseError::UseCase(get_shared_file::Error::NotFound))));
    let expired = SharedFile { witness: Err(ToWitnessErrorKind::ExpiredSharing), file: Found { entity: 9u8, visible: true } };
    assert!(matches!(get_shared_file::run(Some(expired)), Err(UseCaseError::UseCase(get_shared_file::Error::InvalidSharing))));
    let revoked = SharedFile { witness: Err(ToWitnessErrorKind::RevokedSharing), file: Found { entity: 9u8, visible: true } };
    assert!(matches!(get_shared_file::run(Some(revoked)), Err(UseCaseError::UseCase(get_shared_file::Error::InvalidSharing))));
    assert!(matches!(get_shared_file::run::<u8>(None), Err(UseCaseError::UseCase(get_shared_file::Error::NotFound))));
}

#[test]
fn test_get_user_file_usage() {
    let out = get_user_file_usage::run(100, Some(1000)).ok().unwrap();
    assert_eq!(out.usage, 100);
    assert_eq!(out.quota, Some(1000));
    let out = get_user_file_usage::run(7, None).ok().unwrap();
    assert_eq!(out.quota, None);
}

#[test]
fn test_list_user_file_sharings() {
    let list = vec![Found { entity: 1u8, visible: true }];
    assert_eq!(list_user_file_sharings::run(list).ok().unwrap(), vec![1]);
    let list = vec![Found { entity: 1u8, visible: false }];
    assert!(matches!(list_user_file_sharings::run(list), Err(UseCaseError::Internal(_))));
}

#[test]
fn test_create_file() {
    let upload = || create_file::Upload {
        name: Some("poster.pdf".to_string()),
        content_type: Some("application/pdf".to_string()),
        object_id: ObjectId(5),
        blake3_digest: [7u8; 32],
        size: 1024,
    };
    let creation = || Creation { id: FileId(9), created_at: 1_600_000_000, author_id: UserId("u1".to_string()) };
    let file = create_file::run(true, true, None, false, upload(), creation(), true).ok().unwrap();
    assert_eq!(file.id, FileId(9));
    assert_eq!(file.created_at, 1_600_000_000);
    assert_eq!(file.author_id, UserId("u1".to_string()));
    assert_eq!(file.object_id, ObjectId(5));
    assert_eq!(file.blake3_digest, [7u8; 32]);
    assert_eq!(file.name, Some("poster.pdf".to_string()));
    assert_eq!(file.type_, Some("application/pdf".to_string()));
    assert_eq!(file.size, 1024);
    assert!(matches!(create_file::run(true, true, Some(10), true, upload(), creation(), true), Ok(_)));
    assert!(matches!(create_file::run(true, true, Some(10), true, upload(), creation(), false), Err(UseCaseError::Internal(_))));
    assert!(matches!(create_file::run(true, true, Some(0), true, upload(), creation(), true), Err(UseCaseError::UseCase(create_file::Error::OutOfUsageQuota))));
    assert!(matches!(create_file::run(true, true, Some(10), false, upload(), creation(), true), Err(UseCaseError::UseCase(create_file::Error::OutOfUsageQuota))));
    assert!(matches!(create_file::run(true, false, None, true, upload(), creation(), true), Err(UseCaseError::UseCase(create_file::Error::InvalidName))));
    assert!(matches!(create_file::run(false, true, None, true, upload(), creation(), true), Err(UseCaseError::UseCase(create_file::Error::InsufficientPermissions))));
}

#[test]
fn test_get_distributed_file() {
    assert!(matches!(get_distributed_file::run(found(1u8), Some(2u8), found(3u8)), Ok(3)));
    assert!(matches!(get_distributed_file::run::<u8, u8, u8>(found(1), Some(2), None), Err(UseCaseError::UseCase(get_distributed_file::Error::FileDistributionNotFound))));
    assert!(matches!(get_distributed_file::run::<u8, u8, u8>(found(1), None, None), Err(UseCaseError::UseCase(get_distributed_file::Error::FileDistributionNotFound))));
    assert!(matches!(get_distributed_file::run::<u8, u8, u8>(hidden(1), Some(2), found(3)), Err(UseCaseError::UseCase(get_distributed_file::Error::ProjectNotFound))));
}

#[test]
fn test_list_distributed_files() {
    assert_eq!(list_distributed_files::run(found(1u8), vec![found(2u8), found(3u8)]).ok().unwrap(), vec![2, 3]);
    assert!(matches!(list_distributed_files::run(found(1u8), vec![found(2u8), None]), Err(UseCaseError::Internal(_))));
    assert!(matches!(list_distributed_files::run::<u8, u8>(None, vec![]), Err(UseCaseError::UseCase(list_distributed_files::Error::ProjectNotFound))));
}

// ---------------------------------------------------------------- distribute_files

fn sharing(id: u128) -> FileSharingId {
    FileSharingId(id)
}

#[test]
fn test_distribute_files_shares_a_file() {
    let lookup = distribute_files::FileLookup::File { found: true, shared: Ok(sharing(4)), contained: true };
    let decision = distribute_files::to_file_sharing(lookup);
    assert_eq!(decision.store, Some(sharing(4)));
    assert!(matches!(decision.result, Ok(FileSharingId(4))));
}

#[test]
fn test_distribute_files_file_errors() {
    let missing = distribute_files::FileLookup::File { found: false, shared: Ok(sharing(4)), contained: true };
    let d = distribute_files::to_file_sharing(missing);
    assert_eq!(d.store, None);
    assert!(matches!(d.result, Err(UseCaseError::UseCase(distribute_files::Error::FileNotFound))));
    let not_sharable = distribute_files::FileLookup::File { found: true, shared: Err(NonSharableFileError), contained: true };
    let d = distribute_files::to_file_sharing(not_sharable);
    assert_eq!(d.store, None);
    assert!(matches!(d.result, Err(UseCaseError::UseCase(distribute_files::Error::NonSharableFile))));
    let out_of_scope = distribute_files::FileLookup::File { found: true, shared: Ok(sharing(4)), contained: false };
    let d = distribute_files::to_file_sharing(out_of_scope);
    assert_eq!(d.store, Some(sharing(4)));
    assert!(matches!(d.result, Err(UseCaseError::Internal(_))));
}

#[test]
fn test_distribute_files_sharing_errors() {
    let ok = distribute_files::FileLookup::Sharing { sharing: found(sharing(6)), contained: true };
    let d = distribute_files::to_file_sharing(ok);
    assert_eq!(d.store, None);
    assert!(matches!(d.result, Ok(FileSharingId(6))));
    let hidden_sharing = distribute_files::FileLookup::Sharing { sharing: hidden(sharing(6)), contained: true };
    assert!(matches!(distribute_files::to_file_sharing(hidden_sharing).result, Err(UseCaseError::UseCase(distribute_files::Error::FileSharingNotFound))));
    let missing = distribute_files::FileLookup::Sharing { sharing: None, contained: true };
    assert!(matches!(distribute_files::to_file_sharing(missing).result, Err(UseCaseError::UseCase(distribute_files::Error::FileSharingNotFound))));
    let elsewhere = distribute_files::FileLookup::Sharing { sharing: found(sharing(6)), contained: false };
    assert!(matches!(distribute_files::to_file_sharing(elsewhere).result, Err(UseCaseError::UseCase(distribute_files::Error::OutOfScopeFileSharing))));
}

#[test]
fn test_distribute_files_mapping_needs_visible_project() {
    let file = distribute_files::FileLookup::File { found: true, shared: Ok(sharing(6)), contained: true };
    let d = distribute_files::to_mapping(found(ProjectId(1)), file);
    assert_eq!(d.store, Some(distribute_files::ProjectSharing { sharing_id: sharing(6), project: ProjectId(1) }));
    assert!(matches!(d.result, Ok((ProjectId(1), FileSharingId(6)))));
    let file = distribute_files::FileLookup::File { found: true, shared: Ok(sharing(6)), contained: true };
    let d = distribute_files::to_mapping(hidden(ProjectId(1)), file);
    assert_eq!(d.store, None);
    assert!(matches!(d.result, Err(UseCaseError::UseCase(distribute_files::Error::ProjectNotFound))));
    let file = distribute_files::FileLookup::File { found: false, shared: Ok(sharing(4)), contained: true };
    assert!(matches!(distribute_files::to_mapping(None, file).result, Err(UseCaseError::UseCase(distribute_files::Error::ProjectNotFound))));
}

fn taken(project: u128, id: u128, stored: bool) -> distribute_files::MappingDecision {
    distribute_files::MappingDecision {
        store: if stored { Some(distribute_files::ProjectSharing { sharing_id: sharing(id), project: ProjectId(project) }) } else { None },
        result: Ok((ProjectId(project), sharing(id))),
    }
}

fn refused(error: distribute_files::Error) -> distribute_files::MappingDecision {
    distribute_files::MappingDecision { store: None, result: Err(UseCaseError::UseCase(error)) }
}

fn distribution_creation() -> Creation<FileDistributionId> {
    Creation { id: FileDistributionId(10), created_at: 1_600_000_000, author_id: UserId("operator".to_string()) }
}

fn distribute(
    may: bool,
    name_ok: bool,
    description_ok: bool,
    mappings: Vec<distribute_files::MappingDecision>,
    files: Result<(), DistributionFilesErrorKind>,
    visible: bool,
) -> Result<distribute_files::FileDistribution, UseCaseError<distribute_files::Error>> {
    distribute_files::run(
        may,
        "Handbook".to_string(),
        name_ok,
        "For every project".to_string(),
        description_ok,
        mappings,
        files,
        distribution_creation(),
        visible,
    )
}

#[test]
fn test_distribute_files_run() {
    let ok = || vec![taken(1, 11, false), taken(2, 12, true)];
    let d = distribute(true, true, true, ok(), Ok(()), true).ok().unwrap();
    assert_eq!(d.id, FileDistributionId(10));
    assert_eq!(d.created_at, 1_600_000_000);
    assert_eq!(d.author_id, UserId("operator".to_string()));
    assert_eq!(d.name, "Handbook");
    assert_eq!(d.description, "For every project");
    assert_eq!(d.files, vec![(ProjectId(1), sharing(11)), (ProjectId(2), sharing(12))]);
    assert!(matches!(distribute(false, true, true, ok(), Ok(()), true), Err(UseCaseError::UseCase(distribute_files::Error::InsufficientPermissions))));
    assert!(matches!(distribute(true, false, true, ok(), Ok(()), true), Err(UseCaseError::UseCase(distribute_files::Error::InvalidName))));
    assert!(matches!(distribute(true, true, false, ok(), Ok(()), true), Err(UseCaseError::UseCase(distribute_files::Error::InvalidDescription))));
    assert!(matches!(
        distribute(true, true, true, ok(), Err(DistributionFilesErrorKind::Empty), true),
        Err(UseCaseError::UseCase(distribute_files::Error::NoFiles))
    ));
    assert!(matches!(
        distribute(true, true, true, ok(), Err(DistributionFilesErrorKind::TooLong), true),
        Err(UseCaseError::UseCase(distribute_files::Error::TooManyFiles))
    ));
    assert!(matches!(
        distribute(true, true, true, ok(), Err(DistributionFilesErrorKind::Duplicated(ProjectId(3))), true),
        Err(UseCaseError::UseCase(distribute_files::Error::DuplicatedProjectId(ProjectId(3))))
    ));
    assert!(matches!(distribute(true, true, true, ok(), Ok(()), false), Err(UseCaseError::Internal(_))));
}

#[test]
fn test_distribute_files_first_refused_mapping_decides() {
    let mappings = vec![
        taken(1, 11, false),
        refused(distribute_files::Error::FileNotFound),
        refused(distribute_files::Error::ProjectNotFound),
    ];
    let res = distribute(true, true, true, mappings, Err(DistributionFilesErrorKind::Empty), true);
    assert!(matches!(res, Err(UseCaseError::UseCase(distribute_files::Error::FileNotFound))));
    let mappings = vec![taken(1, 11, false), distribute_files::MappingDecision { store: None, result: Err(internal()) }];
    let res = distribute(true, true, true, mappings, Ok(()), true);
    assert!(matches!(res, Err(UseCaseError::Internal(_))));
}

#[test]
fn test_distribute_files_effects() {
    let mappings = vec![taken(1, 11, true), taken(2, 12, false), taken(3, 13, true)];
    let effects = distribute_files::effects(true, true, true, &mappings, &Ok(()));
    assert_eq!(
        effects,
        vec![
            distribute_files::Effect::StoreSharing(distribute_files::ProjectSharing { sharing_id: sharing(11), project: ProjectId(1) }),
            distribute_files::Effect::StoreSharing(distribute_files::ProjectSharing { sharing_id: sharing(13), project: ProjectId(3) }),
            distribute_files::Effect::StoreDistribution,
        ]
    );
    let files = distribute_files::distribution_files(&mappings);
    assert_eq!(files, vec![(ProjectId(1), sharing(11)), (ProjectId(2), sharing(12)), (ProjectId(3), sharing(13))]);
    assert!(distribute_files::effects(false, true, true, &mappings, &Ok(())).is_empty());
    let with_refusal = vec![taken(1, 11, true), refused(distribute_files::Error::FileNotFound), taken(3, 13, true)];
    assert_eq!(
        distribute_files::effects(true, true, true, &with_refusal, &Ok(())),
        vec![distribute_files::Effect::StoreSharing(distribute_files::ProjectSharing { sharing_id: sharing(11), project: ProjectId(1) })]
    );
    assert_eq!(
        distribute_files::effects(true, true, true, &mappings, &Err(DistributionFilesErrorKind::TooLong)).len(),
        2
    );
}

// ---------------------------------------------------------------- invitations and roles

#[test]
fn test_invite_user() {
    assert!(matches!(invite_user::run(Ok(()), Ok(Found { entity: 1u8, visible: true })), Ok(1)));
    assert!(matches!(
        invite_user::run::<u8>(Err(EmailAddressErrorKind::InvalidEmailAddress), Ok(Found { entity: 1, visible: true })),
        Err(UseCaseError::UseCase(invite_user::Error::InvalidEmailAddress))
    ));
    assert!(matches!(
        invite_user::run::<u8>(Err(EmailAddressErrorKind::NotUniversityEmailAddress), Ok(Found { entity: 1, visible: true })),
        Err(UseCaseError::UseCase(invite_user::Error::NotUniversityEmailAddress))
    ));
    assert!(matches!(
        invite_user::run::<u8>(Ok(()), Err(UseCaseError::UseCase(NewUserInvitationErrorKind::AlreadyInvitedEmailAddress))),
        Err(UseCaseError::UseCase(invite_user::Error::AlreadyInvitedEmailAddress))
    ));
    assert!(matches!(
        invite_user::run::<u8>(Ok(()), Err(UseCaseError::UseCase(NewUserInvitationErrorKind::AlreadySignedUpEmailAddress))),
        Err(UseCaseError::UseCase(invite_user::Error::AlreadySignedUpEmailAddress))
    ));
    assert!(matches!(
        invite_user::run::<u8>(Ok(()), Err(UseCaseError::UseCase(NewUserInvitationErrorKind::InsufficientPermissions))),
        Err(UseCaseError::UseCase(invite_user::Error::InsufficientPermissions))
    ));
    assert!(matches!(invite_user::run::<u8>(Ok(()), Err(internal())), Err(UseCaseError::Internal(_))));
}

#[test]
fn test_assign_user_role_to_existing_user() {
    let user = assign_user_role_to_email::ExistingUser { may_set_role: true, user: Found { entity: 7u8, visible: true } };
    let res = assign_user_role_to_email::run::<u8, u8>(Ok(()), UserInvitationRole::Committee, Some(user), None, Err(internal()));
    assert!(matches!(res, Ok(assign_user_role_to_email::Output::User(7))));
    let user = assign_user_role_to_email::ExistingUser { may_set_role: false, user: Found { entity: 7u8, visible: true } };
    let res = assign_user_role_to_email::run::<u8, u8>(Ok(()), UserInvitationRole::Committee, Some(user), None, Err(internal()));
    assert!(matches!(res, Err(UseCaseError::UseCase(assign_user_role_to_email::Error::InsufficientPermissions))));
}

#[test]
fn test_assign_user_role_keeps_same_role_invitation() {
    let existing = assign_user_role_to_email::ExistingInvitation { role: UserInvitationRole::Committee, invitation: Found { entity: 3u8, visible: true } };
    let res = assign_user_role_to_email::run::<u8, u8>(Ok(()), UserInvitationRole::Committee, None, Some(existing), Err(internal()));
    assert!(matches!(res, Ok(assign_user_role_to_email::Output::Invitation(3))));
}

#[test]
fn test_assign_user_role_replaces_other_role_invitation() {
    assert!(!assign_user_role_to_email::keeps_invitation(UserInvitationRole::Committee, UserInvitationRole::Administrator));
    assert!(assign_user_role_to_email::keeps_invitation(UserInvitationRole::Administrator, UserInvitationRole::Administrator));
    let existing = assign_user_role_to_email::ExistingInvitation { role: UserInvitationRole::Committee, invitation: Found { entity: 3u8, visible: true } };
    let res = assign_user_role_to_email::run::<u8, u8>(
        Ok(()),
        UserInvitationRole::CommitteeOperator,
        None,
        Some(existing),
        Ok(Found { entity: 4, visible: true }),
    );
    assert!(matches!(res, Ok(assign_user_role_to_email::Output::Invitation(4))));
}

#[test]
fn test_assign_user_role_invitation_errors() {
    let refused = |kind| assign_user_role_to_email::run::<u8, u8>(Ok(()), UserInvitationRole::Committee, None, None, Err(UseCaseError::UseCase(kind)));
    assert!(matches!(
        refused(NewUserInvitationErrorKind::InsufficientPermissions),
        Err(UseCaseError::UseCase(assign_user_role_to_email::Error::InsufficientPermissions))
    ));
    assert!(matches!(refused(NewUserInvitationErrorKind::AlreadyInvitedEmailAddress), Err(UseCaseError::Internal(_))));
    assert!(matches!(refused(NewUserInvitationErrorKind::AlreadySignedUpEmailAddress), Err(UseCaseError::Internal(_))));
    let res = assign_user_role_to_email::run::<u8, u8>(Err(EmailAddressErrorKind::InvalidEmailAddress), UserInvitationRole::Committee, None, None, Err(internal()));
    assert!(matches!(res, Err(UseCaseError::UseCase(assign_user_role_to_email::Error::InvalidEmailAddress))));
}

#[test]
fn test_user_invitation_role_to_user_role() {
    assert_eq!(UserInvitationRole::Administrator.to_user_role(), UserRole::Administrator);
    assert_eq!(UserInvitationRole::CommitteeOperator.to_user_role(), UserRole::CommitteeOperator);
    assert_eq!(UserInvitationRole::Committee.to_user_role(), UserRole::Committee);
}

// ---------------------------------------------------------------- display ids

#[test]
fn test_check_project_display_id_status() {
    let free: Result<bool, UseCaseError<Infallible>> = Ok(true);
    let taken: Result<bool, UseCaseError<Infallible>> = Ok(false);
    assert_eq!(check_project_display_id_status::run(Ok(()), true, free).ok().unwrap(), check_project_display_id_status::DisplayIdStatus::Available);
    assert_eq!(check_project_display_id_status::run(Ok(()), true, taken).ok().unwrap(), check_project_display_id_status::DisplayIdStatus::Unavailable);
    let status = check_project_display_id_status::run(Err(DisplayIdErrorKind::StartsWithUnderscore), true, Ok(true)).ok().unwrap();
    assert_eq!(status, check_project_display_id_status::DisplayIdStatus::Invalid { reason: check_project_display_id_status::DisplayIdInvalidReason::StartsWithUnderscore });
    let status = check_project_display_id_status::run(Err(DisplayIdErrorKind::TooShort), false, Err(internal())).ok().unwrap();
    assert_eq!(status, check_project_display_id_status::DisplayIdStatus::Invalid { reason: check_project_display_id_status::DisplayIdInvalidReason::TooShort });
    assert!(matches!(check_project_display_id_status::run(Ok(()), false, Ok(true)), Err(UseCaseError::Internal(_))));
    assert!(matches!(check_project_display_id_status::run(Ok(()), true, Err(internal())), Err(UseCaseError::Internal(_))));
}

#[test]
fn test_display_id_invalid_reasons() {
    assert_eq!(check_project_display_id_status::DisplayIdInvalidReason::from_display_id_error(DisplayIdErrorKind::TooLong), check_project_display_id_status::DisplayIdInvalidReason::TooLong);
    assert_eq!(
        check_project_display_id_status::DisplayIdInvalidReason::from_display_id_error(DisplayIdErrorKind::ContainsDisallowedCharacter),
        check_project_display_id_status::DisplayIdInvalidReason::ContainsDisallowedCharacter
    );
}

// ---------------------------------------------------------------- project creation

#[test]
fn test_project_creation_availability() {
    let availability = get_project_creation_availability::run(1_700_000_000_000, |_now: i64, category: ProjectCategory| {
        category == ProjectCategory::Cooking || category == ProjectCategory::Food
    });
    assert!(!availability.general);
    assert!(!availability.cooking_requiring_preparation_area);
    assert!(availability.cooking);
    assert!(availability.food);
    assert!(!availability.stage);
    assert_eq!(availability.timestamp, 1_700_000_000_000);
}

#[test]
fn test_project_creation_availability_uses_one_moment() {
    let availability = get_project_creation_availability::run(7, |now: i64, _category: ProjectCategory| now % 2 == 0);
    assert_eq!(availability.timestamp, 7);
    assert!(!availability.general);
    assert!(!availability.stage);
}

fn user_name(first: &str, last: &str) -> UserName {
    UserName {
        name: PersonName { first: first.to_string(), last: last.to_string() },
        kana_name: PersonName { first: format!("{}-kana", first), last: format!("{}-kana", last) },
    }
}

#[test]
fn test_create_project() {
    let after = || create_project::AfterCreation { owners_assigned: true, sharings_in_answer_scope: true, subowner_is_login_user: true };
    let owner = || user_name("Taro", "Yamada");
    let subowner = || user_name("Hanako", "Sato");
    let made = create_project::run(found(1u8), Ok(Found { entity: 2u8, visible: true }), after(), owner(), subowner()).ok().unwrap();
    assert_eq!(made.project, 2);
    assert_eq!(made.owner.name.first, "Taro");
    assert_eq!(made.owner.kana_name.last, "Yamada-kana");
    assert_eq!(made.subowner.name.last, "Sato");
    assert_eq!(made.subowner.kana_name.first, "Hanako-kana");
    assert!(matches!(
        create_project::run::<u8, u8>(found(1), Err(UseCaseError::UseCase(NewProjectErrorKind::SameOwnerSubowner)), after(), owner(), subowner()),
        Err(UseCaseError::UseCase(create_project::Error::SameOwnerSubowner))
    ));
    assert!(matches!(
        create_project::run::<u8, u8>(found(1), Err(UseCaseError::UseCase(NewProjectErrorKind::AlreadyProjectOwnerSubowner)), after(), owner(), subowner()),
        Err(UseCaseError::UseCase(create_project::Error::AlreadyProjectOwner))
    ));
    assert!(matches!(
        create_project::run::<u8, u8>(hidden(1), Ok(Found { entity: 2, visible: true }), after(), owner(), subowner()),
        Err(UseCaseError::UseCase(create_project::Error::PendingProjectNotFound))
    ));
    let mut broken = after();
    broken.owners_assigned = false;
    assert!(matches!(create_project::run(found(1u8), Ok(Found { entity: 2u8, visible: true }), broken, owner(), subowner()), Err(UseCaseError::Internal(_))));
}

#[test]
fn test_accept_project_subowner() {
    let owner = || user_name("Taro", "Yamada");
    let subowner = || user_name("Hanako", "Sato");
    let made = accept_project_subowner::run(found(1u8), Ok(Some(Found { entity: 2u8, visible: true })), owner(), subowner()).ok().unwrap();
    assert_eq!(made.project, 2);
    assert_eq!(made.owner.name.last, "Yamada");
    assert_eq!(made.subowner.name.first, "Hanako");
    assert!(matches!(accept_project_subowner::run::<u8, u8>(found(1), Ok(None), owner(), subowner()), Err(UseCaseError::UseCase(accept_project_subowner::Error::TooManyProjects))));
    assert!(matches!(accept_project_subowner::run::<u8, u8>(None, Ok(None), owner(), subowner()), Err(UseCaseError::UseCase(accept_project_subowner::Error::PendingProjectNotFound))));
}

#[test]
fn test_internal_error_keeps_message() {
    assert_eq!(internal_error("broken").message, "broken");
}

#[test]
fn test_create_file_effects() {
    assert_eq!(
        create_file::effects(true, true, None, true),
        vec![create_file::Effect::StoreObject, create_file::Effect::StoreFile]
    );
    assert_eq!(
        create_file::effects(true, true, Some(100), true),
        vec![create_file::Effect::StoreObjectWithin(100), create_file::Effect::StoreFile]
    );
    assert_eq!(create_file::effects(true, true, Some(100), false), vec![create_file::Effect::StoreObjectWithin(100)]);
    assert!(create_file::effects(true, true, Some(0), true).is_empty());
    assert!(create_file::effects(false, true, None, true).is_empty());
    assert!(create_file::effects(true, false, None, true).is_empty());
}

#[test]
fn test_accept_project_subowner_effects() {
    let pending = PendingProjectId(5);
    let made: Result<Option<Found<u8>>, UseCaseError<()>> = Ok(Some(Found { entity: 2, visible: true }));
    assert_eq!(
        accept_project_subowner::effects(pending, &found(1u8), &made),
        vec![accept_project_subowner::Effect::DeletePendingProject(pending), accept_project_subowner::Effect::StoreProject]
    );
    let too_many: Result<Option<Found<u8>>, UseCaseError<()>> = Ok(None);
    assert_eq!(
        accept_project_subowner::effects(pending, &found(1u8), &too_many),
        vec![accept_project_subowner::Effect::DeletePendingProject(pending)]
    );
    assert!(accept_project_subowner::effects(pending, &hidden(1u8), &made).is_empty());
}

#[test]
fn test_create_project_effects() {
    let pending = PendingProjectId(5);
    let made: Result<Found<u8>, UseCaseError<NewProjectErrorKind>> = Ok(Found { entity: 2, visible: true });
    let answers = vec![RegistrationFormAnswerId(30)];
    let sharings = vec![(FileSharingId(40), true), (FileSharingId(41), true)];
    assert_eq!(
        create_project::effects(pending, &found(1u8), &made, true, &answers, &sharings),
        vec![
            create_project::Effect::StoreProject,
            create_project::Effect::StoreOwner,
            create_project::Effect::StoreSubowner,
            create_project::Effect::MoveAnswer(RegistrationFormAnswerId(30)),
            create_project::Effect::MoveSharing(FileSharingId(40)),
            create_project::Effect::MoveSharing(FileSharingId(41)),
            create_project::Effect::DeletePendingProject(pending),
        ]
    );
    let stray = vec![(FileSharingId(40), true), (FileSharingId(41), false), (FileSharingId(42), true)];
    assert_eq!(
        create_project::effects(pending, &found(1u8), &made, true, &vec![], &stray),
        vec![
            create_project::Effect::StoreProject,
            create_project::Effect::StoreOwner,
            create_project::Effect::StoreSubowner,
            create_project::Effect::MoveSharing(FileSharingId(40)),
        ]
    );
    assert_eq!(
        create_project::effects(pending, &found(1u8), &made, false, &answers, &sharings),
        vec![create_project::Effect::StoreProject]
    );
    let refused: Result<Found<u8>, UseCaseError<NewProjectErrorKind>> =
        Err(UseCaseError::UseCase(NewProjectErrorKind::SameOwnerSubowner));
    assert!(create_project::effects(pending, &found(1u8), &refused, true, &answers, &sharings).is_empty());
    assert!(create_project::effects(pending, &hidden(1u8), &made, true, &answers, &sharings).is_empty());
}
