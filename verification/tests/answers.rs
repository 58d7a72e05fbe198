use sos21_use_case::domain::{
    AnswerItemsLengthErrorKind, FormAnswerErrorKind, RegistrationFormAnswerErrorKind,
};
use sos21_use_case::error::InternalError;
use sos21_use_case::flow::Found;
use sos21_use_case::interface::form_answer::{
    to_form_answer_items, to_registration_form_answer_items, DecidedAnswerItem,
    FormAnswerItemError, FormAnswerItemsError,
};
use sos21_use_case::model::FormItemId;
use sos21_use_case::text::u64_text;
use sos21_use_case::UseCaseError;
use sos21_use_case::{answer_form, answer_registration_form, get_project_form_answer};

fn found<T>(entity: T) -> Option<Found<T>> {
    Some(Found { entity, visible: true })
}

fn hidden<T>(entity: T) -> Option<Found<T>> {
    Some(Found { entity, visible: false })
}

fn failure<E>(message: &str) -> UseCaseError<E> {
    UseCaseError::Internal(InternalError { message: message.to_string() })
}

fn message<T, E>(res: &Result<T, UseCaseError<E>>) -> Option<String> {
    match res {
        Err(UseCaseError::Internal(e)) => Some(e.message.clone()),
        _ => None,
    }
}

fn answer(entity: u8) -> Result<Found<u8>, UseCaseError<FormAnswerErrorKind>> {
    Ok(Found { entity, visible: true })
}

// ---------------------------------------------------------------- answer_form

#[test]
fn test_answer_form_answers() {
    let res = answer_form::run::<u8, u8, u8, u8>(found(1), found(2), true, Ok(3), answer(4));
    assert!(matches!(res, Ok(4)));
}

#[test]
fn test_answer_form_refusals_in_order() {
    let res = answer_form::run::<u8, u8, u8, u8>(hidden(1), None, false, Ok(3), answer(4));
    assert!(matches!(res, Err(UseCaseError::UseCase(answer_form::Error::ProjectNotFound))));
    let res = answer_form::run::<u8, u8, u8, u8>(found(1), hidden(2), false, Ok(3), answer(4));
    assert!(matches!(res, Err(UseCaseError::UseCase(answer_form::Error::FormNotFound))));
    // The answer period is checked before the items.
    let res = answer_form::run::<u8, u8, u8, u8>(
        found(1),
        found(2),
        false,
        Err(UseCaseError::UseCase(FormAnswerItemsError::NoItems)),
        answer(4),
    );
    assert!(matches!(res, Err(UseCaseError::UseCase(answer_form::Error::OutOfAnswerPeriod))));
    let res = answer_form::run::<u8, u8, u8, u8>(
        found(1),
        found(2),
        true,
        Err(UseCaseError::UseCase(FormAnswerItemsError::TooManyItems)),
        answer(4),
    );
    assert!(matches!(
        res,
        Err(UseCaseError::UseCase(answer_form::Error::InvalidItems(FormAnswerItemsError::TooManyItems)))
    ));
    let res = answer_form::run::<u8, u8, u8, u8>(
        found(1),
        found(2),
        true,
        Ok(3),
        Err(UseCaseError::UseCase(FormAnswerErrorKind::NotTargeted)),
    );
    assert!(matches!(res, Err(UseCaseError::UseCase(answer_form::Error::FormNotFound))));
    let res = answer_form::run::<u8, u8, u8, u8>(
        found(1),
        found(2),
        true,
        Ok(3),
        Err(UseCaseError::UseCase(FormAnswerErrorKind::AlreadyAnswered)),
    );
    assert!(matches!(res, Err(UseCaseError::UseCase(answer_form::Error::AlreadyAnswered))));
}

#[test]
fn test_answer_form_keeps_internal_errors() {
    let res = answer_form::run::<u8, u8, u8, u8>(found(1), found(2), true, Err(failure("items lookup")), answer(4));
    assert_eq!(message(&res), Some("items lookup".to_string()));
    let res = answer_form::run::<u8, u8, u8, u8>(found(1), found(2), true, Ok(3), Err(failure("answer store")));
    assert_eq!(message(&res), Some("answer store".to_string()));
}

#[test]
fn test_answer_form_hidden_answer_is_internal() {
    let res = answer_form::run::<u8, u8, u8, u8>(found(1), found(2), true, Ok(3), Ok(Found { entity: 4, visible: false }));
    assert!(matches!(res, Err(UseCaseError::Internal(_))));
}

#[test]
fn test_answer_form_effects() {
    let items: Result<u8, UseCaseError<FormAnswerItemsError>> = Ok(3);
    assert_eq!(
        answer_form::effects::<u8, u8, u8, u8>(&found(1), &found(2), true, &items, &answer(4)),
        vec![answer_form::Effect::StoreAnswer]
    );
    // Stored before its visibility is checked.
    let unseen: Result<Found<u8>, UseCaseError<FormAnswerErrorKind>> = Ok(Found { entity: 4, visible: false });
    assert_eq!(
        answer_form::effects::<u8, u8, u8, u8>(&found(1), &found(2), true, &items, &unseen),
        vec![answer_form::Effect::StoreAnswer]
    );
    assert!(answer_form::effects::<u8, u8, u8, u8>(&found(1), &found(2), false, &items, &answer(4)).is_empty());
    assert!(answer_form::effects::<u8, u8, u8, u8>(&hidden(1), &found(2), true, &items, &answer(4)).is_empty());
    let refused: Result<Found<u8>, UseCaseError<FormAnswerErrorKind>> =
        Err(UseCaseError::UseCase(FormAnswerErrorKind::AlreadyAnswered));
    assert!(answer_form::effects::<u8, u8, u8, u8>(&found(1), &found(2), true, &items, &refused).is_empty());
}

// ---------------------------------------------------- answer_registration_form

fn registration_answer(entity: u8) -> Result<Found<u8>, UseCaseError<RegistrationFormAnswerErrorKind>> {
    Ok(Found { entity, visible: true })
}

#[test]
fn test_answer_registration_form_answers() {
    let res = answer_registration_form::run::<u8, u8, u8, u8>(true, found(1), found(2), Ok(3), registration_answer(4));
    assert!(matches!(res, Ok(4)));
}

#[test]
fn test_answer_registration_form_refusals() {
    let res = answer_registration_form::run::<u8, u8, u8, u8>(false, found(1), found(2), Ok(3), registration_answer(4));
    assert!(matches!(res, Err(UseCaseError::UseCase(answer_registration_form::Error::InsufficientPermissions))));
    let res = answer_registration_form::run::<u8, u8, u8, u8>(true, None, found(2), Ok(3), registration_answer(4));
    assert!(matches!(res, Err(UseCaseError::UseCase(answer_registration_form::Error::PendingProjectNotFound))));
    let res = answer_registration_form::run::<u8, u8, u8, u8>(true, found(1), hidden(2), Ok(3), registration_answer(4));
    assert!(matches!(res, Err(UseCaseError::UseCase(answer_registration_form::Error::RegistrationFormNotFound))));
    let res = answer_registration_form::run::<u8, u8, u8, u8>(
        true,
        found(1),
        found(2),
        Ok(3),
        Err(UseCaseError::UseCase(RegistrationFormAnswerErrorKind::OutOfProjectCreationPeriod)),
    );
    assert!(matches!(
        res,
        Err(UseCaseError::UseCase(answer_registration_form::Error::OutOfProjectCreationPeriod))
    ));
}

#[test]
fn test_answer_registration_form_keeps_internal_errors() {
    let res = answer_registration_form::run::<u8, u8, u8, u8>(true, found(1), found(2), Err(failure("sharing")), registration_answer(4));
    assert_eq!(message(&res), Some("sharing".to_string()));
    let res = answer_registration_form::run::<u8, u8, u8, u8>(true, found(1), found(2), Ok(3), Err(failure("store")));
    assert_eq!(message(&res), Some("store".to_string()));
}

#[test]
fn test_answer_registration_form_effects() {
    let items: Result<u8, UseCaseError<FormAnswerItemsError>> = Ok(3);
    assert_eq!(
        answer_registration_form::effects::<u8, u8, u8, u8>(true, &found(1), &found(2), &items, &registration_answer(4)),
        vec![answer_registration_form::Effect::StoreAnswer]
    );
    assert!(answer_registration_form::effects::<u8, u8, u8, u8>(false, &found(1), &found(2), &items, &registration_answer(4)).is_empty());
    let refused_items: Result<u8, UseCaseError<FormAnswerItemsError>> = Err(UseCaseError::UseCase(FormAnswerItemsError::NoItems));
    assert!(answer_registration_form::effects::<u8, u8, u8, u8>(true, &found(1), &found(2), &refused_items, &registration_answer(4)).is_empty());
}

// ---------------------------------------------------------- answer items

fn decided(id: u128, result: Result<u8, UseCaseError<FormAnswerItemError>>) -> DecidedAnswerItem<u8> {
    DecidedAnswerItem { item_id: FormItemId(id), result }
}

#[test]
fn test_to_form_answer_items_takes_all() {
    let res = to_form_answer_items(vec![decided(1, Ok(10)), decided(2, Ok(20))], Ok(()));
    assert_eq!(res.ok(), Some(vec![10, 20]));
}

#[test]
fn test_to_form_answer_items_first_refusal_decides() {
    let res = to_form_answer_items(
        vec![
            decided(1, Ok(10)),
            decided(2, Err(UseCaseError::UseCase(FormAnswerItemError::InvalidText))),
            decided(3, Err(failure("later"))),
        ],
        Ok(()),
    );
    assert!(matches!(
        res,
        Err(UseCaseError::UseCase(FormAnswerItemsError::InvalidItem(FormItemId(2), FormAnswerItemError::InvalidText)))
    ));
}

#[test]
fn test_to_form_answer_items_keeps_internal_error() {
    let res = to_form_answer_items(
        vec![decided(1, Ok(10)), decided(2, Err(failure("file lookup")))],
        Err(AnswerItemsLengthErrorKind::TooLong),
    );
    assert_eq!(message(&res), Some("file lookup".to_string()));
}

#[test]
fn test_to_form_answer_items_length() {
    let res = to_form_answer_items::<u8>(vec![], Err(AnswerItemsLengthErrorKind::Empty));
    assert!(matches!(res, Err(UseCaseError::UseCase(FormAnswerItemsError::NoItems))));
    let res = to_form_answer_items(vec![decided(1, Ok(10))], Err(AnswerItemsLengthErrorKind::TooLong));
    assert!(matches!(res, Err(UseCaseError::UseCase(FormAnswerItemsError::TooManyItems))));
}

#[test]
fn test_to_registration_form_answer_items() {
    let res = to_registration_form_answer_items(vec![decided(1, Ok(10)), decided(2, Ok(20))], Ok(()));
    assert_eq!(res.ok(), Some(vec![10, 20]));
    let res = to_registration_form_answer_items(
        vec![decided(5, Err(UseCaseError::UseCase(FormAnswerItemError::TooManyFiles)))],
        Ok(()),
    );
    assert!(matches!(
        res,
        Err(UseCaseError::UseCase(FormAnswerItemsError::InvalidItem(FormItemId(5), FormAnswerItemError::TooManyFiles)))
    ));
}

// ---------------------------------------------------------------- u64_text

#[test]
fn test_u64_text() {
    assert_eq!(u64_text(0), "0");
    assert_eq!(u64_text(7), "7");
    assert_eq!(u64_text(10), "10");
    assert_eq!(u64_text(1234567890), "1234567890");
    assert_eq!(u64_text(u64::MAX), u64::MAX.to_string());
}

// ---------------------------------------------------------- create_form_answer

use sos21_use_case::create_form_answer;
use sos21_use_case::domain::CheckAnswerErrorKind;
use sos21_use_case::flow::Keyed;
use sos21_use_case::model::{Creation, FormAnswerId, FormId, ProjectId, UserId};

fn key_item(id: u128, result: Result<u8, UseCaseError<create_form_answer::ItemError>>) -> Keyed<FormItemId, u8, create_form_answer::ItemError> {
    Keyed { key: FormItemId(id), result }
}

fn observations(items: Vec<Keyed<FormItemId, u8, create_form_answer::ItemError>>) -> create_form_answer::Observations<u8> {
    create_form_answer::Observations {
        project: found(ProjectId(1)),
        form: Some(FormId(2)),
        form_targets_project: true,
        items,
        items_length: Ok(()),
        in_answer_period: true,
        already_answered: false,
        check: Ok(()),
        creation: Creation { id: FormAnswerId(9), created_at: 1_600_000_000, author_id: UserId("owner".to_string()) },
        answer_visible: true,
    }
}

#[test]
fn test_create_form_answer_answers() {
    let o = observations(vec![key_item(1, Ok(10)), key_item(2, Ok(20))]);
    assert_eq!(create_form_answer::effects(&o), vec![create_form_answer::Effect::StoreAnswer]);
    let answer = create_form_answer::run(o).ok().unwrap();
    assert_eq!(answer.id, FormAnswerId(9));
    assert_eq!(answer.created_at, 1_600_000_000);
    assert_eq!(answer.author_id, UserId("owner".to_string()));
    assert_eq!(answer.project_id, ProjectId(1));
    assert_eq!(answer.form_id, FormId(2));
    assert_eq!(answer.items, vec![10, 20]);
}

#[test]
fn test_create_form_answer_refusals_in_order() {
    let mut o = observations(vec![key_item(3, Err(UseCaseError::UseCase(create_form_answer::ItemError::InvalidText)))]);
    o.in_answer_period = false;
    assert!(create_form_answer::effects(&o).is_empty());
    assert!(matches!(
        create_form_answer::run(o),
        Err(UseCaseError::UseCase(create_form_answer::Error::InvalidItem(FormItemId(3), create_form_answer::ItemError::InvalidText)))
    ));
    let mut o = observations(vec![key_item(1, Ok(10))]);
    o.in_answer_period = false;
    o.already_answered = true;
    assert!(matches!(create_form_answer::run(o), Err(UseCaseError::UseCase(create_form_answer::Error::OutOfAnswerPeriod))));
    let mut o = observations(vec![key_item(1, Ok(10))]);
    o.already_answered = true;
    assert!(create_form_answer::effects(&o).is_empty());
    assert!(matches!(create_form_answer::run(o), Err(UseCaseError::UseCase(create_form_answer::Error::AlreadyAnswered))));
    let mut o = observations(vec![key_item(1, Ok(10))]);
    o.check = Err(CheckAnswerErrorKind::MismatchedItemsLength);
    assert!(matches!(create_form_answer::run(o), Err(UseCaseError::UseCase(create_form_answer::Error::MismatchedItemsLength))));
    let mut o = observations(vec![]);
    o.items_length = Err(AnswerItemsLengthErrorKind::Empty);
    assert!(matches!(create_form_answer::run(o), Err(UseCaseError::UseCase(create_form_answer::Error::NoItems))));
    let mut o = observations(vec![key_item(1, Ok(10))]);
    o.form_targets_project = false;
    assert!(matches!(create_form_answer::run(o), Err(UseCaseError::UseCase(create_form_answer::Error::FormNotFound))));
}

#[test]
fn test_create_form_answer_keeps_internal_error() {
    let o = observations(vec![key_item(1, Ok(10)), key_item(2, Err(failure("sharing store")))]);
    assert!(create_form_answer::effects(&o).is_empty());
    let res = create_form_answer::run(o);
    assert_eq!(message(&res), Some("sharing store".to_string()));
}

#[test]
fn test_create_form_answer_stores_before_visibility_check() {
    let mut o = observations(vec![key_item(1, Ok(10))]);
    o.answer_visible = false;
    assert_eq!(create_form_answer::effects(&o), vec![create_form_answer::Effect::StoreAnswer]);
    assert!(matches!(create_form_answer::run(o), Err(UseCaseError::Internal(_))));
}

// ------------------------------------------------------- stores of other operations

use sos21_use_case::domain::{EmailAddressErrorKind, NewFormErrorKind, NewUserInvitationErrorKind};
use sos21_use_case::interface::form::FormItemsError;
use sos21_use_case::interface::project_query::ProjectQueryError;
use sos21_use_case::model::UserInvitationRole;
use sos21_use_case::{assign_user_role_to_email, create_form, create_registration_form, invite_user};

#[test]
fn test_invite_user_effects() {
    let made: Result<Found<u8>, UseCaseError<NewUserInvitationErrorKind>> = Ok(Found { entity: 1, visible: false });
    assert_eq!(invite_user::effects(Ok(()), &made), vec![invite_user::Effect::StoreInvitation]);
    assert!(invite_user::effects(Err(EmailAddressErrorKind::InvalidEmailAddress), &made).is_empty());
    let refused: Result<Found<u8>, UseCaseError<NewUserInvitationErrorKind>> =
        Err(UseCaseError::UseCase(NewUserInvitationErrorKind::AlreadyInvitedEmailAddress));
    assert!(invite_user::effects(Ok(()), &refused).is_empty());
}

#[test]
fn test_create_form_effects() {
    let items: Result<u8, FormItemsError> = Ok(1);
    let condition: Result<u8, sos21_use_case::interface::form::FormConditionError> = Ok(2);
    let made: Result<Found<u8>, NewFormErrorKind> = Ok(Found { entity: 3, visible: true });
    assert_eq!(create_form::effects(true, true, &items, &condition, true, &made), vec![create_form::Effect::StoreForm]);
    assert!(create_form::effects(true, true, &items, &condition, false, &made).is_empty());
    assert!(create_form::effects(true, false, &items, &condition, true, &made).is_empty());
    let refused: Result<Found<u8>, NewFormErrorKind> = Err(NewFormErrorKind::TooEarlyPeriodStart);
    assert!(create_form::effects(true, true, &items, &condition, true, &refused).is_empty());
}

#[test]
fn test_create_registration_form_effects() {
    let query: Result<u8, ProjectQueryError> = Ok(1);
    let items: Result<u8, FormItemsError> = Ok(2);
    assert_eq!(
        create_registration_form::effects(true, &query, &vec![false, false], true, true, &items),
        vec![create_registration_form::Effect::StoreRegistrationForm]
    );
    assert!(create_registration_form::effects(true, &query, &vec![false, true], true, true, &items).is_empty());
    assert!(create_registration_form::effects(false, &query, &vec![], true, true, &items).is_empty());
    let bad_query: Result<u8, ProjectQueryError> = Err(ProjectQueryError::TooBigQuery);
    assert!(create_registration_form::effects(true, &bad_query, &vec![], true, true, &items).is_empty());
}

#[test]
fn test_assign_user_role_effects() {
    let made: Result<Found<u8>, UseCaseError<NewUserInvitationErrorKind>> = Ok(Found { entity: 4, visible: true });
    let refused: Result<Found<u8>, UseCaseError<NewUserInvitationErrorKind>> =
        Err(UseCaseError::UseCase(NewUserInvitationErrorKind::InsufficientPermissions));
    let user = Some(assign_user_role_to_email::ExistingUser { may_set_role: true, user: Found { entity: 7u8, visible: true } });
    assert_eq!(
        assign_user_role_to_email::effects::<u8, u8>(Ok(()), UserInvitationRole::Committee, &user, &None, &made),
        vec![assign_user_role_to_email::Effect::StoreUser]
    );
    let other_role = Some(assign_user_role_to_email::ExistingInvitation {
        role: UserInvitationRole::Committee,
        invitation: Found { entity: 3u8, visible: true },
    });
    assert_eq!(
        assign_user_role_to_email::effects::<u8, u8>(Ok(()), UserInvitationRole::Administrator, &None, &other_role, &made),
        vec![assign_user_role_to_email::Effect::DeleteInvitation, assign_user_role_to_email::Effect::StoreInvitation]
    );
    // The replaced invitation is deleted even where the new one is refused.
    assert_eq!(
        assign_user_role_to_email::effects::<u8, u8>(Ok(()), UserInvitationRole::Administrator, &None, &other_role, &refused),
        vec![assign_user_role_to_email::Effect::DeleteInvitation]
    );
    assert!(assign_user_role_to_email::effects::<u8, u8>(Ok(()), UserInvitationRole::Committee, &None, &other_role, &made).is_empty());
    assert_eq!(
        assign_user_role_to_email::effects::<u8, u8>(Ok(()), UserInvitationRole::Committee, &None, &None, &made),
        vec![assign_user_role_to_email::Effect::StoreInvitation]
    );
    assert!(assign_user_role_to_email::effects::<u8, u8>(
        Err(EmailAddressErrorKind::NotUniversityEmailAddress),
        UserInvitationRole::Committee,
        &user,
        &None,
        &made
    )
    .is_empty());
}

#[test]
fn test_answer_form_then_read_back() {
    let given = answer_form::run::<u8, u8, u8, u8>(found(1), found(2), true, Ok(3), Ok(Found { entity: 4, visible: true })).ok().unwrap();
    let read = get_project_form_answer::run::<u8, u8>(found(1), Some(Found { entity: 4, visible: true }), true).ok().unwrap();
    assert_eq!(given, read);
}
