use sos21_use_case::create_form;
use sos21_use_case::flow::Found;
use sos21_use_case::UseCaseError;
use sos21_use_case::create_registration_form;
use sos21_use_case::domain::{
    CheckAnswerErrorKind, CheckAnswerItemErrorKind, CheckboxesErrorKind, CheckedIdsErrorKind,
    ConditionProjectsErrorKind, NonSharableFileError,
    FormItemsErrorKind, NewFormErrorKind, ProjectQueryErrorKind,
};
use sos21_use_case::interface::form::{
    to_check_answer_error, to_form_condition, to_form_item, to_form_items, CheckAnswerError,
    Checkbox, CheckAnswerItemError, ConvertedFormItem, FormConditionError, FormItem, FormItemBody,
    FormItemBodyChecks, FormItemChecks, FormItemCondition, FormItemError, FormItemsError, Radio,
};
use sos21_use_case::interface::project_query::{
    to_project_query, to_project_query_conjunction, ProjectQueryError,
};
use sos21_use_case::interface::form_answer::{
    to_file_sharing_answer, to_form_answer_item, AnswerBodyChecks, AnswerSharingScope,
    FileAnswerLookup, FormAnswerItemBody, FormAnswerItemError, InputFormAnswerItem,
    InputFormAnswerItemBody, NewSharing, RegistrationFormAnswerRespondent, ShareTarget,
};
use sos21_use_case::model::{
    CheckboxId, FileSharingId, FormId, FormItemId, PendingProjectId, ProjectId, RadioId,
    RegistrationFormId, Creation, UserId,
};

fn text_checks() -> FormItemChecks {
    FormItemChecks {
        name: true,
        description: true,
        conditions: true,
        body: FormItemBodyChecks::Text { max_length: true, min_length: true, placeholder: true, content: Ok(()) },
    }
}

fn sample_item() -> FormItem {
    FormItem {
        id: FormItemId(7),
        name: "Name".to_string(),
        description: "Desc".to_string(),
        conditions: None,
        body: FormItemBody::Text {
            accept_multiple_lines: false,
            is_required: true,
            max_length: Some(10),
            min_length: None,
            placeholder: String::new(),
        },
    }
}

#[test]
fn test_to_form_item_accepts_valid_item() {
    let item = to_form_item(sample_item(), &text_checks()).ok().unwrap();
    assert_eq!(item.id, FormItemId(7));
    assert_eq!(item.name, "Name");
    assert_eq!(item.description, "Desc");
    assert!(item.conditions.is_none());
    assert!(matches!(item.body, FormItemBody::Text { is_required: true, max_length: Some(10), min_length: None, .. }));
}

#[test]
fn test_to_form_item_keeps_radio_buttons_in_order() {
    let item = FormItem {
        id: FormItemId(8),
        name: "Pick".to_string(),
        description: String::new(),
        conditions: Some(vec![vec![FormItemCondition::RadioSelected { item_id: FormItemId(1), radio_id: RadioId(2) }]]),
        body: FormItemBody::Radio {
            buttons: vec![
                Radio { id: RadioId(3), label: "b".to_string() },
                Radio { id: RadioId(1), label: "a".to_string() },
            ],
            is_required: false,
        },
    };
    let checks = FormItemChecks {
        name: true,
        description: true,
        conditions: true,
        body: FormItemBodyChecks::Radio { labels: vec![true, true], buttons: Ok(()) },
    };
    let converted = to_form_item(item, &checks).ok().unwrap();
    match converted.body {
        FormItemBody::Radio { buttons, is_required } => {
            assert!(!is_required);
            assert_eq!(buttons.iter().map(|b| b.id).collect::<Vec<_>>(), vec![RadioId(3), RadioId(1)]);
        },
        _ => panic!("the body changed kind"),
    }
    assert_eq!(converted.conditions.unwrap().len(), 1);
}

#[test]
fn test_to_form_item_reports_first_refusal_in_order() {
    let mut checks = text_checks();
    checks.description = false;
    checks.body = FormItemBodyChecks::Text { max_length: false, min_length: true, placeholder: true, content: Ok(()) };
    assert_eq!(to_form_item(sample_item(), &checks).err(), Some(FormItemError::InvalidDescription));
    checks.description = true;
    assert_eq!(to_form_item(sample_item(), &checks).err(), Some(FormItemError::InvalidTextMaxLength));
    checks.name = false;
    assert_eq!(to_form_item(sample_item(), &checks).err(), Some(FormItemError::InvalidName));
}

fn checkbox_item(labels: &[&str]) -> FormItem {
    FormItem {
        id: FormItemId(9),
        name: "Choose".to_string(),
        description: String::new(),
        conditions: None,
        body: FormItemBody::Checkbox {
            boxes: labels
                .iter()
                .enumerate()
                .map(|(i, l)| Checkbox { id: CheckboxId(i as u128 + 1), label: l.to_string() })
                .collect(),
            min_checks: None,
            max_checks: None,
        },
    }
}

#[test]
fn test_to_form_item_checkbox_body() {
    let mut checks = text_checks();
    checks.body = FormItemBodyChecks::Checkbox {
        labels: vec![true, false],
        boxes: Ok(()),
        min_checks: true,
        max_checks: true,
        consistent_limits: true,
    };
    assert_eq!(to_form_item(checkbox_item(&["a", "b"]), &checks).err(), Some(FormItemError::InvalidCheckboxLabel));
    checks.body = FormItemBodyChecks::Checkbox {
        labels: vec![true, true],
        boxes: Err(CheckboxesErrorKind::DuplicatedCheckboxId { id: CheckboxId(3) }),
        min_checks: true,
        max_checks: true,
        consistent_limits: true,
    };
    assert_eq!(to_form_item(checkbox_item(&["a", "b"]), &checks).err(), Some(FormItemError::DuplicatedCheckboxId(CheckboxId(3))));
    checks.body = FormItemBodyChecks::Checkbox {
        labels: vec![],
        boxes: Ok(()),
        min_checks: true,
        max_checks: true,
        consistent_limits: false,
    };
    assert_eq!(to_form_item(checkbox_item(&[]), &checks).err(), Some(FormItemError::InconsistentCheckLimits));
}

#[test]
fn test_to_form_items_first_item_error_decides() {
    let items = vec![
        ConvertedFormItem { id: FormItemId(1), result: Ok::<u8, FormItemError>(1) },
        ConvertedFormItem { id: FormItemId(2), result: Err(FormItemError::InvalidName) },
        ConvertedFormItem { id: FormItemId(3), result: Err(FormItemError::InvalidDescription) },
    ];
    assert_eq!(
        to_form_items(items, Err(FormItemsErrorKind::Empty)),
        Err(FormItemsError::InvalidItem(FormItemId(2), FormItemError::InvalidName))
    );
}

#[test]
fn test_to_form_items_list_verdicts() {
    let items = || vec![ConvertedFormItem { id: FormItemId(1), result: Ok::<u8, FormItemError>(1) }];
    assert_eq!(to_form_items(items(), Ok(())), Ok(vec![1]));
    assert_eq!(to_form_items(items(), Err(FormItemsErrorKind::TooLong)), Err(FormItemsError::TooManyItems));
    assert_eq!(
        to_form_items(items(), Err(FormItemsErrorKind::DuplicatedFormItemId(FormItemId(1)))),
        Err(FormItemsError::DuplicatedItemId(FormItemId(1)))
    );
    assert_eq!(
        to_form_items(items(), Err(FormItemsErrorKind::UnknownRadioIdInConditions { provenance: FormItemId(1), id: RadioId(4) })),
        Err(FormItemsError::InvalidItem(FormItemId(1), FormItemError::UnknownRadioIdInConditions(RadioId(4))))
    );
}

#[test]
fn test_from_item_error_and_from_items_error() {
    assert_eq!(
        FormItemsError::from_item_error(FormItemId(5), FormItemError::NoFileTypes),
        FormItemsError::InvalidItem(FormItemId(5), FormItemError::NoFileTypes)
    );
    assert_eq!(FormItemsError::from_items_error(FormItemsErrorKind::Empty), FormItemsError::NoItems);
}

#[test]
fn test_to_form_condition() {
    let ok = to_form_condition::<u8, u8>(Ok(1), Ok(2), Ok(3));
    assert_eq!(ok, Ok((1, 2, 3)));
    let bad_query = to_form_condition::<u8, u8>(Err(ProjectQueryError::TooBigQuery), Err(ConditionProjectsErrorKind::TooLong), Ok(3));
    assert_eq!(bad_query, Err(FormConditionError::InvalidQuery(ProjectQueryError::TooBigQuery)));
    let includes = to_form_condition::<u8, u8>(Ok(1), Err(ConditionProjectsErrorKind::Duplicated(ProjectId(9))), Ok(3));
    assert_eq!(includes, Err(FormConditionError::DuplicatedIncludeProjects));
    let excludes = to_form_condition::<u8, u8>(Ok(1), Ok(2), Err(ConditionProjectsErrorKind::TooLong));
    assert_eq!(excludes, Err(FormConditionError::TooManyExcludeProjects));
}

#[test]
fn test_form_condition_from_query_error() {
    assert_eq!(
        FormConditionError::from_query_error(ProjectQueryError::DuplicatedAttributes),
        FormConditionError::InvalidQuery(ProjectQueryError::DuplicatedAttributes)
    );
}

#[test]
fn test_project_query() {
    assert_eq!(to_project_query_conjunction(7u8, true), Ok(7));
    assert_eq!(to_project_query_conjunction(7u8, false), Err(ProjectQueryError::DuplicatedAttributes));
    assert_eq!(to_project_query::<u8>(vec![Ok(1), Ok(2)], Ok(())), Ok(vec![1, 2]));
    assert_eq!(
        to_project_query::<u8>(vec![Ok(1)], Err(ProjectQueryErrorKind::TooBigDisjunction)),
        Err(ProjectQueryError::TooBigQuery)
    );
    assert_eq!(
        to_project_query::<u8>(vec![Err(ProjectQueryError::DuplicatedAttributes)], Err(ProjectQueryErrorKind::TooBigDisjunction)),
        Err(ProjectQueryError::DuplicatedAttributes)
    );
    assert_eq!(ProjectQueryError::from_query_error(ProjectQueryErrorKind::TooBigDisjunction), ProjectQueryError::TooBigQuery);
}

#[test]
fn test_check_answer_error() {
    assert_eq!(to_check_answer_error(CheckAnswerErrorKind::MismatchedItemsLength), CheckAnswerError::MismatchedItemsLength);
    assert_eq!(
        to_check_answer_error(CheckAnswerErrorKind::Item(FormItemId(2), CheckAnswerItemErrorKind::TooLongText)),
        CheckAnswerError::InvalidAnswerItem { item_id: FormItemId(2), item_error: CheckAnswerItemError::TooLongText }
    );
}

#[test]
fn test_create_form_error_mappings() {
    assert!(matches!(
        create_form::Error::from_items_error(FormItemsError::NoItems),
        create_form::Error::InvalidItems(FormItemsError::NoItems)
    ));
    assert!(matches!(
        create_form::Error::from_condition_error(FormConditionError::TooManyIncludeProjects),
        create_form::Error::InvalidCondition(FormConditionError::TooManyIncludeProjects)
    ));
    assert!(matches!(
        create_registration_form::Error::from_query_error(ProjectQueryError::TooBigQuery),
        create_registration_form::Error::InvalidQuery(ProjectQueryError::TooBigQuery)
    ));
}

fn create_registration_form_with(
    may_create: bool,
    started: Vec<bool>,
    name_ok: bool,
    description_ok: bool,
    items: Result<u8, FormItemsError>,
    visible: bool,
) -> Result<create_registration_form::RegistrationForm<u8, u8>, UseCaseError<create_registration_form::Error>> {
    create_registration_form::run::<u8, u8>(
        may_create,
        Ok(1),
        started,
        "Registration".to_string(),
        name_ok,
        "Tell us about the project".to_string(),
        description_ok,
        items,
        Creation { id: RegistrationFormId(3), created_at: 1_600_000_000, author_id: UserId("admin".to_string()) },
        visible,
    )
}

#[test]
fn test_create_registration_form_refuses_after_creation_started() {
    assert!(create_registration_form::check_any_started(&vec![false, true]));
    assert!(!create_registration_form::check_any_started(&vec![false, false]));
    let res = create_registration_form_with(true, vec![false, true], true, true, Ok(2), true);
    assert!(matches!(res, Err(UseCaseError::UseCase(create_registration_form::Error::AlreadyStartedProjectCreationPeriod))));
    let res = create_registration_form_with(false, vec![], true, true, Ok(2), true);
    assert!(matches!(res, Err(UseCaseError::UseCase(create_registration_form::Error::InsufficientPermissions))));
}

#[test]
fn test_create_registration_form_makes_the_form() {
    let form = create_registration_form_with(true, vec![false], true, true, Ok(2), true).ok().unwrap();
    assert_eq!(form.id, RegistrationFormId(3));
    assert_eq!(form.created_at, 1_600_000_000);
    assert_eq!(form.author_id, UserId("admin".to_string()));
    assert_eq!(form.name, "Registration");
    assert_eq!(form.description, "Tell us about the project");
    assert_eq!(form.items, 2);
    assert_eq!(form.query, 1);
    let res = create_registration_form_with(true, vec![false], true, true, Ok(2), false);
    assert!(matches!(res, Err(UseCaseError::Internal(_))));
    let res = create_registration_form_with(true, vec![], false, true, Ok(2), true);
    assert!(matches!(res, Err(UseCaseError::UseCase(create_registration_form::Error::InvalidName))));
    let res = create_registration_form_with(true, vec![], true, false, Ok(2), true);
    assert!(matches!(res, Err(UseCaseError::UseCase(create_registration_form::Error::InvalidDescription))));
}

#[test]
fn test_create_form_run_order() {
    let ok = || Ok::<Found<u8>, NewFormErrorKind>(Found { entity: 3, visible: true });
    assert!(matches!(create_form::run::<u8, u8, u8>(true, true, Ok(1), Ok(2), true, ok()), Ok(3)));
    assert!(matches!(
        create_form::run::<u8, u8, u8>(true, true, Ok(1), Ok(2), false, ok()),
        Err(UseCaseError::UseCase(create_form::Error::InvalidPeriod))
    ));
    assert!(matches!(
        create_form::run::<u8, u8, u8>(false, false, Ok(1), Ok(2), true, ok()),
        Err(UseCaseError::UseCase(create_form::Error::InvalidName))
    ));
    assert!(matches!(
        create_form::run::<u8, u8, u8>(true, true, Ok(1), Ok(2), true, Err(NewFormErrorKind::TooEarlyPeriodStart)),
        Err(UseCaseError::UseCase(create_form::Error::TooEarlyPeriodStart))
    ));
}

#[test]
fn test_share_target_scopes() {
    let target = ShareTarget::FormAnswer { project: ProjectId(1), form: FormId(2) };
    assert_eq!(target.to_scope(), AnswerSharingScope::FormAnswer(ProjectId(1), FormId(2)));
    let target = ShareTarget::RegistrationFormAnswer {
        pending_project: PendingProjectId(3),
        registration_form: RegistrationFormId(4),
    };
    assert_eq!(
        target.to_scope(),
        AnswerSharingScope::RegistrationFormAnswer(
            RegistrationFormAnswerRespondent::PendingProject(PendingProjectId(3)),
            RegistrationFormId(4)
        )
    );
}

#[test]
fn test_to_file_sharing_answer_shares_a_file_in_the_answer_scope() {
    let target = ShareTarget::FormAnswer { project: ProjectId(1), form: FormId(2) };
    let lookup = FileAnswerLookup::File {
        file_type: Some(Found { entity: "text/plain".to_string(), visible: true }),
        shared: Ok(FileSharingId(9)),
        contained: true,
    };
    let decision = to_file_sharing_answer(&target, lookup);
    assert_eq!(
        decision.store,
        Some(NewSharing { sharing_id: FileSharingId(9), scope: AnswerSharingScope::FormAnswer(ProjectId(1), FormId(2)) })
    );
    let answer = decision.result.ok().unwrap();
    assert_eq!(answer.sharing_id, FileSharingId(9));
    assert_eq!(answer.file_type, "text/plain");
}

#[test]
fn test_to_file_sharing_answer_refusals_store_nothing() {
    let target = ShareTarget::FormAnswer { project: ProjectId(1), form: FormId(2) };
    let hidden = FileAnswerLookup::File {
        file_type: Some(Found { entity: "text/plain".to_string(), visible: false }),
        shared: Ok(FileSharingId(9)),
        contained: true,
    };
    let d = to_file_sharing_answer(&target, hidden);
    assert_eq!(d.store, None);
    assert!(matches!(d.result, Err(UseCaseError::UseCase(FormAnswerItemError::FileNotFound))));
    let not_sharable = FileAnswerLookup::File {
        file_type: Some(Found { entity: "text/plain".to_string(), visible: true }),
        shared: Err(NonSharableFileError),
        contained: true,
    };
    let d = to_file_sharing_answer(&target, not_sharable);
    assert_eq!(d.store, None);
    assert!(matches!(d.result, Err(UseCaseError::UseCase(FormAnswerItemError::NonSharableFile))));
    let elsewhere = FileAnswerLookup::Sharing {
        sharing_id: FileSharingId(4),
        file_type: Some(Found { entity: "image/png".to_string(), visible: true }),
        contained: false,
    };
    let d = to_file_sharing_answer(&target, elsewhere);
    assert_eq!(d.store, None);
    assert!(matches!(d.result, Err(UseCaseError::UseCase(FormAnswerItemError::OutOfScopeFileSharing))));
    let existing = FileAnswerLookup::Sharing {
        sharing_id: FileSharingId(4),
        file_type: Some(Found { entity: "image/png".to_string(), visible: true }),
        contained: true,
    };
    let d = to_file_sharing_answer(&target, existing);
    assert_eq!(d.store, None);
    let answer = d.result.ok().unwrap();
    assert_eq!(answer.sharing_id, FileSharingId(4));
    assert_eq!(answer.file_type, "image/png");
}

#[test]
fn test_to_form_answer_item_builds_items() {
    let none = InputFormAnswerItem { item_id: FormItemId(1), body: None };
    let built = to_form_answer_item::<u8>(none, AnswerBodyChecks::Unchecked).ok().unwrap();
    assert_eq!(built.item_id, FormItemId(1));
    assert!(built.body.is_none());
    let integer = InputFormAnswerItem { item_id: FormItemId(2), body: Some(InputFormAnswerItemBody::Integer(Some(5))) };
    let built = to_form_answer_item::<u8>(integer, AnswerBodyChecks::Unchecked).ok().unwrap();
    assert!(matches!(built.body, Some(FormAnswerItemBody::Integer(Some(5)))));
    let radio = InputFormAnswerItem { item_id: FormItemId(3), body: Some(InputFormAnswerItemBody::Radio(Some(RadioId(4)))) };
    let built = to_form_answer_item::<u8>(radio, AnswerBodyChecks::Unchecked).ok().unwrap();
    assert!(matches!(built.body, Some(FormAnswerItemBody::Radio(Some(RadioId(4))))));
    let files = InputFormAnswerItem { item_id: FormItemId(6), body: Some(InputFormAnswerItemBody::File(vec![])) };
    let checks = AnswerBodyChecks::File { files: vec![Ok(7u8), Ok(8u8)], sharings: Ok(()) };
    let built = to_form_answer_item(files, checks).ok().unwrap();
    match built.body {
        Some(FormAnswerItemBody::File(v)) => assert_eq!(v, vec![7, 8]),
        _ => panic!("a file answer became another kind"),
    }
}

#[test]
fn test_to_form_answer_item_refusals() {
    let checkbox = InputFormAnswerItem {
        item_id: FormItemId(4),
        body: Some(InputFormAnswerItemBody::Checkbox(vec![CheckboxId(1), CheckboxId(1)])),
    };
    let checks = AnswerBodyChecks::<u8>::Checkbox { checks: Err(CheckedIdsErrorKind::Duplicated(CheckboxId(1))) };
    assert!(matches!(
        to_form_answer_item(checkbox, checks),
        Err(UseCaseError::UseCase(FormAnswerItemError::DuplicatedCheckboxId { id: CheckboxId(1) }))
    ));
    let text = InputFormAnswerItem { item_id: FormItemId(5), body: Some(InputFormAnswerItemBody::Text(Some("x".to_string()))) };
    assert!(matches!(
        to_form_answer_item::<u8>(text, AnswerBodyChecks::Text { accepted: false }),
        Err(UseCaseError::UseCase(FormAnswerItemError::InvalidText))
    ));
    let text = InputFormAnswerItem { item_id: FormItemId(5), body: Some(InputFormAnswerItemBody::Text(Some("x".to_string()))) };
    assert!(matches!(to_form_answer_item::<u8>(text, AnswerBodyChecks::Unchecked), Err(UseCaseError::Internal(_))));
}
