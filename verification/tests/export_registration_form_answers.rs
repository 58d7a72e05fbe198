use sos21_use_case::export_registration_form_answers::{
    answer_values_with_times, run, write_header, write_item_header_fields, AnswerBody, AnswerItemRecord, AnswerRecord,
    CheckboxRecord, Error, FormItemRecord, FormItemShape, GridColumnRecord, GridRowAnswer,
    GridRowRecord, Input, InputFieldNames, RadioRecord, RegistrationFormRecord,
    RenderFileAnswerInput, Respondent,
};
use sos21_use_case::flow::Found;
use sos21_use_case::model::{CheckboxId, FileSharingId, GridRadioColumnId, GridRadioRowId, RadioId};
use sos21_use_case::UseCaseError;

fn s(x: &str) -> String {
    x.to_string()
}

fn fields(id: bool, author: bool) -> InputFieldNames {
    InputFieldNames {
        id: if id { Some(s("id")) } else { None },
        created_at: None,
        updated_at: None,
        project_id: None,
        pending_project_id: None,
        author_id: if author { Some(s("author")) } else { None },
    }
}

fn render(input: RenderFileAnswerInput) -> Result<String, String> {
    Ok(format!("{}:{}", input.answer_id, input.sharing_ids.join(";")))
}

fn input(field_names: InputFieldNames) -> Input<fn(RenderFileAnswerInput) -> Result<String, String>> {
    Input {
        registration_form_id: 7,
        field_names,
        render_file_answer: render,
    }
}

fn form_items() -> Vec<FormItemRecord> {
    vec![
        FormItemRecord { name: s("Q1"), body: FormItemShape::Text },
        FormItemRecord { name: s("Q2"), body: FormItemShape::Integer },
        FormItemRecord {
            name: s("Q3"),
            body: FormItemShape::Checkbox {
                boxes: vec![
                    CheckboxRecord { id: CheckboxId(1), label: s("A") },
                    CheckboxRecord { id: CheckboxId(2), label: s("B") },
                ],
            },
        },
        FormItemRecord {
            name: s("Q4"),
            body: FormItemShape::Radio {
                buttons: vec![
                    RadioRecord { id: RadioId(10), label: s("X") },
                    RadioRecord { id: RadioId(11), label: s("Y") },
                ],
            },
        },
        FormItemRecord {
            name: s("Q5"),
            body: FormItemShape::GridRadio {
                rows: vec![
                    GridRowRecord { id: GridRadioRowId(20), label: s("r1") },
                    GridRowRecord { id: GridRadioRowId(21), label: s("r2") },
                ],
                columns: vec![
                    GridColumnRecord { id: GridRadioColumnId(30), label: s("c1") },
                    GridColumnRecord { id: GridRadioColumnId(31), label: s("c2") },
                ],
            },
        },
        FormItemRecord { name: s("Q6"), body: FormItemShape::File },
    ]
}

fn answer() -> AnswerRecord {
    AnswerRecord {
        id: 0xff,
        created_at: 0,
        updated_at: 0,
        respondent: Respondent::Project(1),
        author_id: s("author1"),
        items: vec![
            AnswerItemRecord { body: Some(AnswerBody::Text(Some(s("hello")))) },
            AnswerItemRecord { body: Some(AnswerBody::Integer(Some(42))) },
            AnswerItemRecord { body: Some(AnswerBody::Checkbox(vec![CheckboxId(2)])) },
            AnswerItemRecord { body: Some(AnswerBody::Radio(Some(RadioId(11)))) },
            AnswerItemRecord {
                body: Some(AnswerBody::GridRadio(vec![
                    GridRowAnswer { row_id: GridRadioRowId(20), value: Some(GridRadioColumnId(31)) },
                    GridRowAnswer { row_id: GridRadioRowId(21), value: None },
                ])),
            },
            AnswerItemRecord { body: Some(AnswerBody::File(vec![FileSharingId(5), FileSharingId(6)])) },
        ],
    }
}

fn text(bytes: Vec<u8>) -> String {
    String::from_utf8(bytes).unwrap()
}

#[test]
fn test_export_registration_form_answers_all_kinds() {
    let form = RegistrationFormRecord { items: form_items() };
    let out = run(&input(fields(true, true)), true, Some(form), vec![Found { entity: answer(), visible: true }])
        .ok()
        .unwrap();
    assert_eq!(
        text(out),
        "id,author,Q1,Q2,Q3 A,Q3 B,Q4,Q5 r1,Q5 r2,Q6\r\n\
         00000000-0000-0000-0000-0000000000ff,author1,hello,42,FALSE,TRUE,Y,c2,,\
         00000000-0000-0000-0000-0000000000ff:00000000-0000-0000-0000-000000000005;00000000-0000-0000-0000-000000000006\r\n"
    );
}

#[test]
fn test_export_registration_form_answers_respondent_columns() {
    let mut names = fields(false, false);
    names.project_id = Some(s("project"));
    names.pending_project_id = Some(s("pending"));
    names.updated_at = Some(s("updated"));
    let mut pending = answer();
    pending.respondent = Respondent::PendingProject(2);
    pending.updated_at = 3600;
    let form = RegistrationFormRecord { items: vec![] };
    let answers = vec![Found { entity: answer(), visible: true }, Found { entity: pending, visible: true }];
    let out = run(&input(names), true, Some(form), answers).ok().unwrap();
    assert_eq!(
        text(out),
        "updated,project,pending\r\n\
         1970-01-01 09:00:00,00000000-0000-0000-0000-000000000001,\r\n\
         1970-01-01 10:00:00,,00000000-0000-0000-0000-000000000002\r\n"
    );
}

#[test]
fn test_export_registration_form_answers_unanswered_items() {
    let form = RegistrationFormRecord { items: form_items() };
    let mut a = answer();
    a.items = vec![
        AnswerItemRecord { body: None },
        AnswerItemRecord { body: Some(AnswerBody::Integer(None)) },
        AnswerItemRecord { body: Some(AnswerBody::Checkbox(vec![])) },
        AnswerItemRecord { body: Some(AnswerBody::Radio(None)) },
        AnswerItemRecord {
            body: Some(AnswerBody::GridRadio(vec![
                GridRowAnswer { row_id: GridRadioRowId(20), value: None },
                GridRowAnswer { row_id: GridRadioRowId(21), value: None },
            ])),
        },
        AnswerItemRecord { body: None },
    ];
    let out = run(&input(fields(false, false)), true, Some(form), vec![Found { entity: a, visible: true }])
        .ok()
        .unwrap();
    assert_eq!(text(out), "Q1,Q2,Q3 A,Q3 B,Q4,Q5 r1,Q5 r2,Q6\r\n,,FALSE,FALSE,,,,\r\n");
}

#[test]
fn test_export_registration_form_answers_record_narrower_than_header_fails() {
    let form = RegistrationFormRecord { items: form_items() };
    let mut a = answer();
    a.items.truncate(4);
    let res = run(&input(fields(false, false)), true, Some(form), vec![Found { entity: a, visible: true }]);
    assert!(matches!(res, Err(UseCaseError::Internal(_))));
}

#[test]
fn test_export_registration_form_answers_unknown_radio_fails() {
    let form = RegistrationFormRecord { items: form_items() };
    let mut a = answer();
    a.items[3] = AnswerItemRecord { body: Some(AnswerBody::Radio(Some(RadioId(99)))) };
    let res = run(&input(fields(true, true)), true, Some(form), vec![Found { entity: a, visible: true }]);
    assert!(matches!(res, Err(UseCaseError::Internal(_))));
}

#[test]
fn test_export_registration_form_answers_mismatched_item_fails() {
    let form = RegistrationFormRecord { items: form_items() };
    let mut a = answer();
    a.items[0] = AnswerItemRecord { body: Some(AnswerBody::Checkbox(vec![])) };
    let res = run(&input(fields(true, true)), true, Some(form), vec![Found { entity: a, visible: true }]);
    assert!(matches!(res, Err(UseCaseError::Internal(_))));
}

#[test]
fn test_export_registration_form_answers_render_error_fails() {
    fn failing(_input: RenderFileAnswerInput) -> Result<String, String> {
        Err(s("no renderer"))
    }
    let input: Input<fn(RenderFileAnswerInput) -> Result<String, String>> = Input {
        registration_form_id: 7,
        field_names: fields(true, true),
        render_file_answer: failing,
    };
    let form = RegistrationFormRecord { items: form_items() };
    let res = run(&input, true, Some(form), vec![Found { entity: answer(), visible: true }]);
    assert!(matches!(res, Err(UseCaseError::Internal(_))));
}

#[test]
fn test_export_registration_form_answers_insufficient_permissions() {
    let form = RegistrationFormRecord { items: form_items() };
    let res = run(&input(fields(true, true)), false, Some(form), vec![]);
    assert!(matches!(res, Err(UseCaseError::UseCase(Error::InsufficientPermissions))));
}

#[test]
fn test_export_registration_form_answers_form_not_found() {
    let res = run(&input(fields(true, true)), true, None, vec![]);
    assert!(matches!(res, Err(UseCaseError::UseCase(Error::RegistrationFormNotFound))));
}

#[test]
fn test_export_registration_form_answers_invisible_answer_fails() {
    let form = RegistrationFormRecord { items: form_items() };
    let res = run(&input(fields(true, true)), true, Some(form), vec![Found { entity: answer(), visible: false }]);
    assert!(matches!(res, Err(UseCaseError::Internal(_))));
}

#[test]
fn test_write_header_labels_checkbox_and_grid_columns() {
    let header = write_header(&fields(true, false), &form_items());
    assert_eq!(header, vec!["id", "Q1", "Q2", "Q3 A", "Q3 B", "Q4", "Q5 r1", "Q5 r2", "Q6"]);
}

#[test]
fn test_write_item_header_fields_plain_item() {
    let item = FormItemRecord { name: s("Name"), body: FormItemShape::Text };
    assert_eq!(write_item_header_fields(&item), vec!["Name"]);
}

#[test]
fn test_answer_values_with_given_times() {
    let mut names = fields(true, true);
    names.created_at = Some(s("created"));
    names.pending_project_id = Some(s("pending"));
    let values = answer_values_with_times(&names, &answer(), s("C"), s("U"));
    assert_eq!(values, vec!["00000000-0000-0000-0000-0000000000ff", "C", "", "author1"]);
}

#[test]
fn test_export_registration_form_answers_stops_at_first_narrow_record() {
    let calls = std::cell::Cell::new(0u32);
    let counting = |input: RenderFileAnswerInput| {
        calls.set(calls.get() + 1);
        render(input)
    };
    let input = Input { registration_form_id: 7, field_names: fields(false, false), render_file_answer: counting };
    let form = RegistrationFormRecord { items: form_items() };
    let mut narrow = answer();
    narrow.items.truncate(4);
    let res = run(
        &input,
        true,
        Some(form),
        vec![Found { entity: narrow, visible: true }, Found { entity: answer(), visible: true }],
    );
    assert!(matches!(res, Err(UseCaseError::Internal(_))));
    // The second answer, whose file item would call the renderer, is never made.
    assert_eq!(calls.get(), 0);
}
