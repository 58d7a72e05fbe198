//! Exporting the answers to a registration form as a CSV table.
use vstd::prelude::*;
use vstd::utf8::encode_utf8;

use crate::csv_output::{encode_table, uniform_width, write_table};
use crate::error::{internal_error, outcome, InternalError, Outcome, UseCaseError, UseCaseResult};
use crate::export_projects::{bool_field, bool_text, time_field};
use crate::export_users::{header_or_empty, header_text};
use crate::flow::{all_visible, check_all_visible, entities, Found};
use crate::model::{CheckboxId, FileSharingId, GridRadioColumnId, GridRadioRowId, RadioId};
use crate::table::{
    append_values, concat_parts, lemma_concat_parts_len, lemma_select_agree, lemma_select_len,
    push_value, select, select_values,
};
use crate::text::{
    date_time_text, decimal_text, hyphenated_text, renderable_time, u64_text, uuid_text,
    JST_OFFSET_SECONDS,
};

verus! {

#[derive(Debug, Clone)]
pub enum Error {
    RegistrationFormNotFound,
    InsufficientPermissions,
}

impl Error {
    /// Any refusal of the permission check is reported as missing permissions.
    pub fn from_permissions_error() -> (res: Self)
        ensures
            res is InsufficientPermissions,
    {
        Error::InsufficientPermissions
    }
}

/// What the renderer of a file answer is given: the answer's identifier and
/// the identifiers of the file sharings of the answer item.
#[derive(Debug, Clone)]
pub struct RenderFileAnswerInput {
    pub answer_id: String,
    pub sharing_ids: Vec<String>,
}

/// What to export: the headers of the answer columns (a column without a
/// header is left out) and how file answers are rendered.
pub struct Input<F> {
    pub registration_form_id: u128,
    pub field_names: InputFieldNames,
    pub render_file_answer: F,
}

#[derive(Debug, Clone)]
pub struct InputFieldNames {
    pub id: Option<String>,
    pub created_at: Option<String>,
    pub updated_at: Option<String>,
    pub project_id: Option<String>,
    pub pending_project_id: Option<String>,
    pub author_id: Option<String>,
}

#[derive(Debug, Clone)]
pub struct CheckboxRecord {
    pub id: CheckboxId,
    pub label: String,
}

#[derive(Debug, Clone)]
pub struct RadioRecord {
    pub id: RadioId,
    pub label: String,
}

#[derive(Debug, Clone)]
pub struct GridRowRecord {
    pub id: GridRadioRowId,
    pub label: String,
}

#[derive(Debug, Clone)]
pub struct GridColumnRecord {
    pub id: GridRadioColumnId,
    pub label: String,
}

/// What the export reads of the body of a form item.
#[derive(Debug, Clone)]
pub enum FormItemShape {
    Text,
    Integer,
    File,
    Checkbox { boxes: Vec<CheckboxRecord> },
    Radio { buttons: Vec<RadioRecord> },
    GridRadio { rows: Vec<GridRowRecord>, columns: Vec<GridColumnRecord> },
}

/// What the export reads of a form item.
#[derive(Debug, Clone)]
pub struct FormItemRecord {
    pub name: String,
    pub body: FormItemShape,
}

/// The answer to one row of a grid radio item.
#[derive(Debug, Clone)]
pub struct GridRowAnswer {
    pub row_id: GridRadioRowId,
    pub value: Option<GridRadioColumnId>,
}

/// The body of an answer item.
#[derive(Debug, Clone)]
pub enum AnswerBody {
    Text(Option<String>),
    Integer(Option<u64>),
    Checkbox(Vec<CheckboxId>),
    Radio(Option<RadioId>),
    GridRadio(Vec<GridRowAnswer>),
    File(Vec<FileSharingId>),
}

/// An answer item; an item that was not answered has no body.
#[derive(Debug, Clone)]
pub struct AnswerItemRecord {
    pub body: Option<AnswerBody>,
}

/// Who answered: a project or a pending project.
#[derive(Debug, Clone)]
pub enum Respondent {
    Project(u128),
    PendingProject(u128),
}

/// What the export reads of an answer.
#[derive(Debug, Clone)]
pub struct AnswerRecord {
    pub id: u128,
    /// Seconds since the Unix epoch.
    pub created_at: i64,
    /// Seconds since the Unix epoch.
    pub updated_at: i64,
    pub respondent: Respondent,
    pub author_id: String,
    pub items: Vec<AnswerItemRecord>,
}

// ---------------------------------------------------------------- the header

pub open spec fn chosen_columns(n: InputFieldNames) -> Seq<bool> {
    seq![
        n.id is Some, n.created_at is Some, n.updated_at is Some,
        n.project_id is Some, n.pending_project_id is Some, n.author_id is Some,
    ]
}

pub open spec fn header_texts(n: InputFieldNames) -> Seq<Seq<char>> {
    seq![
        header_text(n.id), header_text(n.created_at), header_text(n.updated_at),
        header_text(n.project_id), header_text(n.pending_project_id), header_text(n.author_id),
    ]
}

/// A column header made of the item's name, a space and a label.
pub open spec fn labeled(name: Seq<char>, label: Seq<char>) -> Seq<char> {
    name + seq![' '] + label
}

/// The headers of the columns of a form item: one per checkbox for a
/// checkbox item, one per row for a grid radio item, otherwise one.
pub open spec fn item_header_fields(item: FormItemRecord) -> Seq<Seq<char>> {
    match item.body {
        FormItemShape::Checkbox { boxes } => boxes@.map_values(|b: CheckboxRecord| labeled(item.name@, b.label@)),
        FormItemShape::GridRadio { rows, columns } => rows@.map_values(|r: GridRowRecord| labeled(item.name@, r.label@)),
        _ => seq![item.name@],
    }
}

/// The header record.
pub open spec fn header_record(n: InputFieldNames, items: Seq<FormItemRecord>) -> Seq<Seq<char>> {
    select(chosen_columns(n), header_texts(n))
        + concat_parts(items.map_values(|item: FormItemRecord| item_header_fields(item)))
}

// ---------------------------------------------------------------- a record

pub open spec fn project_id_text(r: Respondent) -> Seq<char> {
    match r {
        Respondent::Project(id) => hyphenated_text(id),
        Respondent::PendingProject(_) => seq![],
    }
}

pub open spec fn pending_project_id_text(r: Respondent) -> Seq<char> {
    match r {
        Respondent::Project(_) => seq![],
        Respondent::PendingProject(id) => hyphenated_text(id),
    }
}

/// The values of the answer columns.
pub open spec fn answer_columns(a: AnswerRecord) -> Seq<Seq<char>> {
    answer_columns_with_times(
        a,
        date_time_text(a.created_at as int, JST_OFFSET_SECONDS as int),
        date_time_text(a.updated_at as int, JST_OFFSET_SECONDS as int),
    )
}

/// The values of the answer columns, with the given renderings of the
/// creation and update times.
pub open spec fn answer_columns_with_times(a: AnswerRecord, created_at: Seq<char>, updated_at: Seq<char>) -> Seq<Seq<char>> {
    seq![
        hyphenated_text(a.id),
        created_at,
        updated_at,
        project_id_text(a.respondent),
        pending_project_id_text(a.respondent),
        a.author_id@,
    ]
}

/// The label of the first button with the given identifier.
pub open spec fn radio_label(buttons: Seq<RadioRecord>, id: RadioId) -> Option<Seq<char>>
    decreases buttons.len(),
{
    if buttons.len() == 0 {
        None
    } else if buttons[0].id == id {
        Some(buttons[0].label@)
    } else {
        radio_label(buttons.drop_first(), id)
    }
}

/// The label of the first column with the given identifier.
pub open spec fn column_label(columns: Seq<GridColumnRecord>, id: GridRadioColumnId) -> Option<Seq<char>>
    decreases columns.len(),
{
    if columns.len() == 0 {
        None
    } else if columns[0].id == id {
        Some(columns[0].label@)
    } else {
        column_label(columns.drop_first(), id)
    }
}

/// The fields of the answered rows of a grid radio item: the label of the
/// chosen column, or nothing for a row left blank; no fields where a chosen
/// column is unknown.
pub open spec fn grid_fields(columns: Seq<GridColumnRecord>, rows: Seq<GridRowAnswer>) -> Option<Seq<Seq<char>>>
    decreases rows.len(),
{
    if rows.len() == 0 {
        Some(seq![])
    } else {
        match grid_fields(columns, rows.drop_last()) {
            None => None,
            Some(prefix) => match rows.last().value {
                None => Some(prefix.push(seq![])),
                Some(c) => match column_label(columns, c) {
                    Some(label) => Some(prefix.push(label)),
                    None => None,
                },
            },
        }
    }
}

/// The fields of an answer item that is not a file answer; no fields where
/// the answer does not fit the form item.
pub open spec fn item_fields(item: FormItemRecord, answer: AnswerItemRecord) -> Option<Seq<Seq<char>>> {
    match answer.body {
        None => Some(seq![seq![]]),
        Some(AnswerBody::Text(None)) => Some(seq![seq![]]),
        Some(AnswerBody::Text(Some(s))) => Some(seq![s@]),
        Some(AnswerBody::Integer(None)) => Some(seq![seq![]]),
        Some(AnswerBody::Integer(Some(n))) => Some(seq![decimal_text(n as nat)]),
        Some(AnswerBody::Checkbox(checks)) => match item.body {
            FormItemShape::Checkbox { boxes } => Some(boxes@.map_values(|b: CheckboxRecord| bool_text(checks@.contains(b.id)))),
            _ => None,
        },
        Some(AnswerBody::Radio(None)) => Some(seq![seq![]]),
        Some(AnswerBody::Radio(Some(id))) => match item.body {
            FormItemShape::Radio { buttons } => match radio_label(buttons@, id) {
                Some(label) => Some(seq![label]),
                None => None,
            },
            _ => None,
        },
        Some(AnswerBody::GridRadio(rows)) => match item.body {
            FormItemShape::GridRadio { rows: item_rows, columns } => grid_fields(columns@, rows@),
            _ => None,
        },
        Some(AnswerBody::File(_)) => None,
    }
}

/// The identifiers of file sharings, rendered.
pub open spec fn sharing_texts(sharings: Seq<FileSharingId>) -> Seq<Seq<char>> {
    sharings.map_values(|s: FileSharingId| hyphenated_text(s.0))
}

/// Whether the renderer returned `text` for the file sharings of an answer.
pub open spec fn rendered_by<F: Fn(RenderFileAnswerInput) -> Result<String, String>>(
    render: F,
    answer_id: Seq<char>,
    sharings: Seq<FileSharingId>,
    text: Seq<char>,
) -> bool {
    exists|arg: RenderFileAnswerInput, out: String|
        arg.answer_id@ == answer_id
        && arg.sharing_ids.deep_view() == sharing_texts(sharings)
        && #[trigger] render.ensures((arg,), Ok::<String, String>(out))
        && out@ == text
}

/// Whether the renderer reported an error for the file sharings of an answer.
pub open spec fn render_failed_on<F: Fn(RenderFileAnswerInput) -> Result<String, String>>(
    render: F,
    answer_id: Seq<char>,
    sharings: Seq<FileSharingId>,
) -> bool {
    exists|arg: RenderFileAnswerInput, err: String|
        arg.answer_id@ == answer_id
        && arg.sharing_ids.deep_view() == sharing_texts(sharings)
        && #[trigger] render.ensures((arg,), Err::<String, String>(err))
}

/// Whether `fields` are the fields of an answer item: the rendered file
/// answer for a file answer, otherwise the fields that `item_fields` gives.
pub open spec fn item_fields_ok<F: Fn(RenderFileAnswerInput) -> Result<String, String>>(
    render: F,
    answer_id: Seq<char>,
    item: FormItemRecord,
    answer: AnswerItemRecord,
    fields: Seq<Seq<char>>,
) -> bool {
    match answer.body {
        Some(AnswerBody::File(sharings)) => fields.len() == 1 && rendered_by(render, answer_id, sharings@, fields[0]),
        _ => item_fields(item, answer) == Some(fields),
    }
}

/// The number of items a record covers: the form's items paired in order
/// with the answer's items.
pub open spec fn paired_items(items: Seq<FormItemRecord>, a: AnswerRecord) -> int {
    if items.len() <= a.items@.len() { items.len() as int } else { a.items@.len() as int }
}

/// Whether `record` is the record of an answer made of the given parts: the
/// chosen answer columns, then the fields of each paired item in order.
pub open spec fn record_from_parts<F: Fn(RenderFileAnswerInput) -> Result<String, String>>(
    render: F,
    n: InputFieldNames,
    items: Seq<FormItemRecord>,
    a: AnswerRecord,
    record: Seq<Seq<char>>,
    parts: Seq<Seq<Seq<char>>>,
) -> bool {
    &&& parts.len() == paired_items(items, a)
    &&& forall|k: int| 0 <= k < parts.len() ==>
            item_fields_ok(render, hyphenated_text(a.id), items[k], a.items@[k], #[trigger] parts[k])
    &&& record == select(chosen_columns(n), answer_columns(a)) + concat_parts(parts)
}

/// Whether `record` is the record of an answer.
pub open spec fn record_ok<F: Fn(RenderFileAnswerInput) -> Result<String, String>>(
    render: F,
    n: InputFieldNames,
    items: Seq<FormItemRecord>,
    a: AnswerRecord,
    record: Seq<Seq<char>>,
) -> bool {
    exists|parts: Seq<Seq<Seq<char>>>| #[trigger] record_from_parts(render, n, items, a, record, parts)
}

/// What the export reads of a registration form.
#[derive(Debug, Clone)]
pub struct RegistrationFormRecord {
    pub items: Vec<FormItemRecord>,
}

/// Whether `bytes` is the exported table with the given records: the header,
/// then the record of each answer in order.
pub open spec fn table_from_records<F: Fn(RenderFileAnswerInput) -> Result<String, String>>(
    render: F,
    n: InputFieldNames,
    items: Seq<FormItemRecord>,
    answers: Seq<AnswerRecord>,
    bytes: Seq<u8>,
    records: Seq<Seq<Seq<char>>>,
) -> bool {
    &&& records.len() == answers.len()
    &&& forall|i: int| 0 <= i < records.len() ==> record_ok(render, n, items, answers[i], #[trigger] records[i])
    &&& uniform_width(seq![header_record(n, items)] + records)
    &&& bytes == encode_utf8(encode_table(seq![header_record(n, items)] + records))
}

/// Whether `bytes` is the exported table of the answers.
pub open spec fn table_ok<F: Fn(RenderFileAnswerInput) -> Result<String, String>>(
    render: F,
    n: InputFieldNames,
    items: Seq<FormItemRecord>,
    answers: Seq<AnswerRecord>,
    bytes: Seq<u8>,
) -> bool {
    exists|records: Seq<Seq<Seq<char>>>| #[trigger] table_from_records(render, n, items, answers, bytes, records)
}

// ---------------------------------------------------------------- the law

/// The number of columns of a form item.
pub open spec fn item_width(item: FormItemRecord) -> int {
    item_header_fields(item).len() as int
}

/// Whether an answer item gives as many fields as its form item has
/// columns: a checkbox answer to a checkbox item, a grid answer with one row
/// answer per row to a grid item, and any other answer, or none, to an item
/// of one column.
pub open spec fn answer_fits(item: FormItemRecord, answer: AnswerItemRecord) -> bool {
    match answer.body {
        Some(AnswerBody::Checkbox(_)) => item.body is Checkbox,
        Some(AnswerBody::GridRadio(rows)) => match item.body {
            FormItemShape::GridRadio { rows: item_rows, columns } => rows@.len() == item_rows@.len(),
            _ => false,
        },
        _ => item_width(item) == 1,
    }
}

/// The fields of an answer item are as many as the item's columns where the answer fits.
pub proof fn lemma_item_fields_width<F: Fn(RenderFileAnswerInput) -> Result<String, String>>(
    render: F,
    answer_id: Seq<char>,
    item: FormItemRecord,
    answer: AnswerItemRecord,
    fields: Seq<Seq<char>>,
)
    requires
        answer_fits(item, answer),
        item_fields_ok(render, answer_id, item, answer, fields),
    ensures
        fields.len() == item_width(item),
{
    match answer.body {
        Some(AnswerBody::GridRadio(rows)) => {
            match item.body {
                FormItemShape::GridRadio { rows: item_rows, columns } => {
                    lemma_grid_fields_len(columns@, rows@);
                },
                _ => {},
            }
        },
        _ => {},
    }
}

/// Rendering the rows of a grid answer gives one field per row.
pub proof fn lemma_grid_fields_len(columns: Seq<GridColumnRecord>, rows: Seq<GridRowAnswer>)
    ensures
        grid_fields(columns, rows) matches Some(f) ==> f.len() == rows.len(),
    decreases rows.len(),
{
    if rows.len() > 0 {
        lemma_grid_fields_len(columns, rows.drop_last());
    }
}

/// Where an answer has one item per form item and each fits its form item,
/// its record has exactly as many fields as the header; so the records of
/// such answers never make the CSV writer refuse the table.
pub proof fn lemma_record_matches_header<F: Fn(RenderFileAnswerInput) -> Result<String, String>>(
    render: F,
    n: InputFieldNames,
    items: Seq<FormItemRecord>,
    a: AnswerRecord,
    record: Seq<Seq<char>>,
)
    requires
        a.items@.len() == items.len(),
        forall|k: int| 0 <= k < items.len() ==> answer_fits(#[trigger] items[k], a.items@[k]),
        record_ok(render, n, items, a, record),
    ensures
        record.len() == header_record(n, items).len(),
{
    let parts = choose|parts: Seq<Seq<Seq<char>>>| #[trigger] record_from_parts(render, n, items, a, record, parts);
    let headers = items.map_values(|item: FormItemRecord| item_header_fields(item));
    assert forall|k: int| 0 <= k < parts.len() implies #[trigger] parts[k].len() == headers[k].len() by {
        assert(item_fields_ok(render, hyphenated_text(a.id), items[k], a.items@[k], parts[k]));
        lemma_item_fields_width(render, hyphenated_text(a.id), items[k], a.items@[k], parts[k]);
    }
    lemma_concat_parts_len(parts, headers);
    lemma_select_len(chosen_columns(n), answer_columns(a));
    lemma_select_len(chosen_columns(n), header_texts(n));
}

/// Whether the renderer of file answers never reports an error.
pub open spec fn render_never_fails<F: Fn(RenderFileAnswerInput) -> Result<String, String>>(render: F) -> bool {
    forall|arg: RenderFileAnswerInput, out: Result<String, String>| #[trigger] render.ensures((arg,), out) ==> out is Ok
}

/// Whether an answer item can be rendered: a file answer is rendered by the
/// renderer; any other answer must suit its form item (a radio or grid
/// answer naming only buttons or columns the item has).
pub open spec fn item_renders(item: FormItemRecord, answer: AnswerItemRecord) -> bool {
    answer.body matches Some(AnswerBody::File(_)) || item_fields(item, answer) is Some
}

/// Whether an answer is exported without failure: its times can be rendered,
/// it has one item per form item, and each of its items fits its form item
/// and can be rendered.
pub open spec fn answer_exportable(n: InputFieldNames, items: Seq<FormItemRecord>, a: AnswerRecord) -> bool {
    &&& n.created_at is None || renderable_time(a.created_at as int)
    &&& n.updated_at is None || renderable_time(a.updated_at as int)
    &&& a.items@.len() == items.len()
    &&& forall|k: int| 0 <= k < items.len() ==> answer_fits(items[k], #[trigger] a.items@[k]) && item_renders(items[k], a.items@[k])
}

/// Whether every answer listed is exported without failure.
pub open spec fn answers_exportable(n: InputFieldNames, items: Seq<FormItemRecord>, answers: Seq<Found<AnswerRecord>>) -> bool {
    forall|i: int| 0 <= i < answers.len() ==> #[trigger] answer_exportable(n, items, answers[i].entity)
}

// ---------------------------------------------------------------- writing

fn chosen_vec(n: &InputFieldNames) -> (res: Vec<bool>)
    ensures
        res@ == chosen_columns(*n),
{
    let res = vec![
        n.id.is_some(), n.created_at.is_some(), n.updated_at.is_some(),
        n.project_id.is_some(), n.pending_project_id.is_some(), n.author_id.is_some(),
    ];
    assert(res@ =~= chosen_columns(*n));
    res
}

/// Joins an item's name and a label into a column header.
fn labeled_text(name: &String, label: &String) -> (res: String)
    ensures
        res@ == labeled(name@, label@),
{
    let mut field = name.clone();
    proof {
        reveal_strlit(" ");
    }
    field.append(" ");
    field.append(label.as_str());
    field
}

/// Writes the headers of the columns of a form item.
pub fn write_item_header_fields(item: &FormItemRecord) -> (res: Vec<String>)
    ensures
        res.deep_view() == item_header_fields(*item),
{
    let mut res: Vec<String> = Vec::new();
    match &item.body {
        FormItemShape::Checkbox { boxes } => {
            let mut i: usize = 0;
            while i < boxes.len()
                invariant
                    i <= boxes.len(),
                    res.deep_view() =~= boxes@.take(i as int).map_values(|b: CheckboxRecord| labeled(item.name@, b.label@)),
                decreases boxes.len() - i,
            {
                push_value(&mut res, labeled_text(&item.name, &boxes[i].label));
                assert(boxes@.take(i + 1) =~= boxes@.take(i as int).push(boxes@[i as int]));
                i = i + 1;
            }
            assert(boxes@.take(i as int) =~= boxes@);
        },
        FormItemShape::GridRadio { rows, columns } => {
            let mut i: usize = 0;
            while i < rows.len()
                invariant
                    i <= rows.len(),
                    res.deep_view() =~= rows@.take(i as int).map_values(|r: GridRowRecord| labeled(item.name@, r.label@)),
                decreases rows.len() - i,
            {
                push_value(&mut res, labeled_text(&item.name, &rows[i].label));
                assert(rows@.take(i + 1) =~= rows@.take(i as int).push(rows@[i as int]));
                i = i + 1;
            }
            assert(rows@.take(i as int) =~= rows@);
        },
        _ => {
            push_value(&mut res, item.name.clone());
        },
    }
    res
}

/// Writes the header record.
pub fn write_header(n: &InputFieldNames, items: &Vec<FormItemRecord>) -> (res: Vec<String>)
    ensures
        res.deep_view() == header_record(*n, items@),
{
    let chosen = chosen_vec(n);
    let mut names: Vec<String> = Vec::new();
    push_value(&mut names, header_or_empty(&n.id));
    push_value(&mut names, header_or_empty(&n.created_at));
    push_value(&mut names, header_or_empty(&n.updated_at));
    push_value(&mut names, header_or_empty(&n.project_id));
    push_value(&mut names, header_or_empty(&n.pending_project_id));
    push_value(&mut names, header_or_empty(&n.author_id));
    assert(names.deep_view() =~= header_texts(*n));
    assert(names.len() == chosen.len());
    let mut res = select_values(&chosen, names);
    let ghost fixed = res.deep_view();
    let ghost headers = items@.map_values(|item: FormItemRecord| item_header_fields(item));
    let mut i: usize = 0;
    while i < items.len()
        invariant
            i <= items.len(),
            headers == items@.map_values(|item: FormItemRecord| item_header_fields(item)),
            res.deep_view() =~= fixed + concat_parts(headers.take(i as int)),
        decreases items.len() - i,
    {
        let part = write_item_header_fields(&items[i]);
        append_values(&mut res, part);
        assert(headers.take(i + 1).drop_last() =~= headers.take(i as int));
        i = i + 1;
    }
    assert(headers.take(i as int) =~= headers);
    res
}

/// Finds the label of the first button with the given identifier.
fn find_radio_label(buttons: &Vec<RadioRecord>, id: RadioId) -> (res: Option<String>)
    ensures
        match res {
            Some(s) => radio_label(buttons@, id) == Some(s@),
            None => radio_label(buttons@, id) is None,
        },
{
    let mut i: usize = 0;
    assert(buttons@.skip(0) =~= buttons@);
    while i < buttons.len()
        invariant
            i <= buttons.len(),
            radio_label(buttons@, id) == radio_label(buttons@.skip(i as int), id),
        decreases buttons.len() - i,
    {
        assert(buttons@.skip(i as int).drop_first() =~= buttons@.skip(i + 1));
        if buttons[i].id == id {
            return Some(buttons[i].label.clone());
        }
        i = i + 1;
    }
    None
}

/// Finds the label of the first column with the given identifier.
fn find_column_label(columns: &Vec<GridColumnRecord>, id: GridRadioColumnId) -> (res: Option<String>)
    ensures
        match res {
            Some(s) => column_label(columns@, id) == Some(s@),
            None => column_label(columns@, id) is None,
        },
{
    let mut i: usize = 0;
    assert(columns@.skip(0) =~= columns@);
    while i < columns.len()
        invariant
            i <= columns.len(),
            column_label(columns@, id) == column_label(columns@.skip(i as int), id),
        decreases columns.len() - i,
    {
        assert(columns@.skip(i as int).drop_first() =~= columns@.skip(i + 1));
        if columns[i].id == id {
            return Some(columns[i].label.clone());
        }
        i = i + 1;
    }
    None
}

/// Writes the fields of the row answers of a grid radio item.
fn write_grid_fields(columns: &Vec<GridColumnRecord>, rows: &Vec<GridRowAnswer>) -> (res: Option<Vec<String>>)
    ensures
        match res {
            Some(r) => grid_fields(columns@, rows@) == Some(r.deep_view()),
            None => grid_fields(columns@, rows@) is None,
        },
{
    let mut res: Vec<String> = Vec::new();
    let mut i: usize = 0;
    while i < rows.len()
        invariant
            i <= rows.len(),
            grid_fields(columns@, rows@.take(i as int)) == Some(res.deep_view()),
        decreases rows.len() - i,
    {
        assert(rows@.take(i + 1).drop_last() =~= rows@.take(i as int));
        match rows[i].value {
            None => {
                push_value(&mut res, String::new());
            },
            Some(c) => {
                match find_column_label(columns, c) {
                    Some(label) => {
                        push_value(&mut res, label);
                    },
                    None => {
                        proof {
                            lemma_grid_fields_none(columns@, rows@, i as int + 1);
                        }
                        return None;
                    },
                }
            },
        }
        i = i + 1;
    }
    assert(rows@.take(i as int) =~= rows@);
    Some(res)
}

/// Once a prefix of the rows has no fields, neither have all the rows.
proof fn lemma_grid_fields_none(columns: Seq<GridColumnRecord>, rows: Seq<GridRowAnswer>, k: int)
    requires
        0 <= k <= rows.len(),
        grid_fields(columns, rows.take(k)) is None,
    ensures
        grid_fields(columns, rows) is None,
    decreases rows.len() - k,
{
    if k < rows.len() {
        assert(rows.take(k + 1).drop_last() =~= rows.take(k));
        lemma_grid_fields_none(columns, rows, k + 1);
    } else {
        assert(rows.take(k) =~= rows);
    }
}

/// Writes the checked state of each box of a checkbox item.
fn write_check_fields(boxes: &Vec<CheckboxRecord>, checks: &Vec<CheckboxId>) -> (res: Vec<String>)
    ensures
        res.deep_view() == boxes@.map_values(|b: CheckboxRecord| bool_text(checks@.contains(b.id))),
{
    let mut res: Vec<String> = Vec::new();
    let mut i: usize = 0;
    while i < boxes.len()
        invariant
            i <= boxes.len(),
            res.deep_view() =~= boxes@.take(i as int).map_values(|b: CheckboxRecord| bool_text(checks@.contains(b.id))),
        decreases boxes.len() - i,
    {
        let checked = contains_checkbox(checks, boxes[i].id);
        push_value(&mut res, bool_field(checked));
        assert(boxes@.take(i + 1) =~= boxes@.take(i as int).push(boxes@[i as int]));
        i = i + 1;
    }
    assert(boxes@.take(i as int) =~= boxes@);
    res
}

/// Whether a checkbox is among the checked ones.
fn contains_checkbox(checks: &Vec<CheckboxId>, id: CheckboxId) -> (res: bool)
    ensures
        res == checks@.contains(id),
{
    let mut i: usize = 0;
    while i < checks.len()
        invariant
            i <= checks.len(),
            forall|j: int| 0 <= j < i ==> checks@[j] != id,
        decreases checks.len() - i,
    {
        if checks[i] == id {
            return true;
        }
        i = i + 1;
    }
    false
}

/// Renders the identifiers of file sharings.
fn sharing_id_texts(sharings: &Vec<FileSharingId>) -> (res: Vec<String>)
    ensures
        res.deep_view() == sharing_texts(sharings@),
{
    let mut res: Vec<String> = Vec::new();
    let mut i: usize = 0;
    while i < sharings.len()
        invariant
            i <= sharings.len(),
            res.deep_view() =~= sharing_texts(sharings@.take(i as int)),
        decreases sharings.len() - i,
    {
        push_value(&mut res, uuid_text(sharings[i].0));
        assert(sharings@.take(i + 1) =~= sharings@.take(i as int).push(sharings@[i as int]));
        i = i + 1;
    }
    assert(sharings@.take(i as int) =~= sharings@);
    res
}

/// Writes the fields of an answer item. It gives `None` where the answer does
/// not fit the form item or where the renderer of a file answer fails.
pub fn write_item_fields<F: Fn(RenderFileAnswerInput) -> Result<String, String>>(
    render: &F,
    answer_id: &String,
    item: &FormItemRecord,
    answer: &AnswerItemRecord,
) -> (res: Option<Vec<String>>)
    requires
        forall|arg: RenderFileAnswerInput| #[trigger] render.requires((arg,)),
    ensures
        res matches Some(r) ==> item_fields_ok(*render, answer_id@, *item, *answer, r.deep_view()),
        !(answer.body matches Some(AnswerBody::File(_))) ==> (res is Some <==> item_fields(*item, *answer) is Some),
        answer.body matches Some(AnswerBody::File(_)) && render_never_fails(*render) ==> res is Some,
        answer.body matches Some(AnswerBody::File(sharings)) ==> (res is None ==> render_failed_on(*render, answer_id@, sharings@)),
{
    let mut res: Vec<String> = Vec::new();
    match &answer.body {
        None => {
            push_value(&mut res, String::new());
            assert(res.deep_view() =~= seq![Seq::<char>::empty()]);
        },
        Some(AnswerBody::Text(None)) => {
            push_value(&mut res, String::new());
            assert(res.deep_view() =~= seq![Seq::<char>::empty()]);
        },
        Some(AnswerBody::Text(Some(s))) => {
            push_value(&mut res, s.clone());
            assert(res.deep_view() =~= seq![s@]);
        },
        Some(AnswerBody::Integer(None)) => {
            push_value(&mut res, String::new());
            assert(res.deep_view() =~= seq![Seq::<char>::empty()]);
        },
        Some(AnswerBody::Integer(Some(n))) => {
            push_value(&mut res, u64_text(*n));
            assert(res.deep_view() =~= seq![decimal_text(*n as nat)]);
        },
        Some(AnswerBody::Checkbox(checks)) => {
            match &item.body {
                FormItemShape::Checkbox { boxes } => {
                    return Some(write_check_fields(boxes, checks));
                },
                _ => {
                    return None;
                },
            }
        },
        Some(AnswerBody::Radio(None)) => {
            push_value(&mut res, String::new());
            assert(res.deep_view() =~= seq![Seq::<char>::empty()]);
        },
        Some(AnswerBody::Radio(Some(id))) => {
            match &item.body {
                FormItemShape::Radio { buttons } => {
                    match find_radio_label(buttons, *id) {
                        Some(label) => {
                            push_value(&mut res, label);
                            assert(res.deep_view() =~= seq![label@]);
                        },
                        None => {
                            return None;
                        },
                    }
                },
                _ => {
                    return None;
                },
            }
        },
        Some(AnswerBody::GridRadio(rows)) => {
            match &item.body {
                FormItemShape::GridRadio { rows: item_rows, columns } => {
                    return write_grid_fields(columns, rows);
                },
                _ => {
                    return None;
                },
            }
        },
        Some(AnswerBody::File(sharings)) => {
            let arg = RenderFileAnswerInput {
                answer_id: answer_id.clone(),
                sharing_ids: sharing_id_texts(sharings),
            };
            let ghost given = arg;
            let rendered = render(arg);
            match rendered {
                Ok(text) => {
                    push_value(&mut res, text);
                    assert(rendered_by(*render, answer_id@, sharings@, res.deep_view()[0]));
                },
                Err(err) => {
                    assert(render.ensures((given,), Err::<String, String>(err)));
                    return None;
                },
            }
        },
    }
    Some(res)
}

/// Writes the answer columns of a record, given the renderings of the
/// answer's creation and update times (each used only where its column is
/// chosen).
#[verifier::spinoff_prover]
pub fn answer_values_with_times(n: &InputFieldNames, answer: &AnswerRecord, created_at: String, updated_at: String) -> (res: Vec<String>)
    ensures
        res.deep_view() == select(chosen_columns(*n), answer_columns_with_times(*answer, created_at@, updated_at@)),
{
    let chosen = chosen_vec(n);
    let ghost created_text = created_at@;
    let ghost updated_text = updated_at@;
    let project_id = match answer.respondent {
        Respondent::Project(id) => uuid_text(id),
        Respondent::PendingProject(_) => String::new(),
    };
    let pending_project_id = match answer.respondent {
        Respondent::Project(_) => String::new(),
        Respondent::PendingProject(id) => uuid_text(id),
    };
    let mut values: Vec<String> = Vec::new();
    push_value(&mut values, uuid_text(answer.id));
    push_value(&mut values, created_at);
    push_value(&mut values, updated_at);
    push_value(&mut values, project_id);
    push_value(&mut values, pending_project_id);
    push_value(&mut values, answer.author_id.clone());
    assert(chosen@.len() == 6);
    assert(values.deep_view().len() == 6);
    assert(values.len() == chosen.len());
    let ghost full = answer_columns_with_times(*answer, created_text, updated_text);
    assert forall|i: int| 0 <= i < 6 && #[trigger] chosen@[i] implies values.deep_view()[i] == full[i] by {
    }
    proof {
        lemma_select_agree(chosen@, values.deep_view(), full);
    }
    select_values(&chosen, values)
}

/// Writes the answer columns of a record.
fn answer_values(n: &InputFieldNames, answer: &AnswerRecord) -> (res: Option<Vec<String>>)
    ensures
        res matches Some(r) ==> r.deep_view() == select(chosen_columns(*n), answer_columns(*answer)),
        (n.created_at is None || renderable_time(answer.created_at as int))
            && (n.updated_at is None || renderable_time(answer.updated_at as int)) ==> res is Some,
{
    let created_at = match time_field(n.created_at.is_some(), answer.created_at) {
        Some(s) => s,
        None => return None,
    };
    let updated_at = match time_field(n.updated_at.is_some(), answer.updated_at) {
        Some(s) => s,
        None => return None,
    };
    let ghost created_text = created_at@;
    let ghost updated_text = updated_at@;
    let res = answer_values_with_times(n, answer, created_at, updated_at);
    proof {
        let chosen = chosen_columns(*n);
        let with_texts = answer_columns_with_times(*answer, created_text, updated_text);
        let cols = answer_columns(*answer);
        assert forall|i: int| 0 <= i < chosen.len() && #[trigger] chosen[i] implies with_texts[i] == cols[i] by {
        }
        lemma_select_agree(chosen, with_texts, cols);
    }
    Some(res)
}

/// Writes the record of an answer: its chosen columns, then the fields of
/// each form item paired in order with the answer's items. It gives `None`
/// where a time cannot be rendered, an answer item does not fit its form
/// item, or the renderer of a file answer fails.
pub fn write_record<F: Fn(RenderFileAnswerInput) -> Result<String, String>>(
    input: &Input<F>,
    items: &Vec<FormItemRecord>,
    answer: &AnswerRecord,
) -> (res: Option<Vec<String>>)
    requires
        forall|arg: RenderFileAnswerInput| #[trigger] input.render_file_answer.requires((arg,)),
    ensures
        res matches Some(r) ==> record_ok(input.render_file_answer, input.field_names, items@, *answer, r.deep_view()),
        (input.field_names.created_at is None || renderable_time(answer.created_at as int))
            && (input.field_names.updated_at is None || renderable_time(answer.updated_at as int))
            && render_never_fails(input.render_file_answer)
            && (forall|k: int| 0 <= k < paired_items(items@, *answer) ==> #[trigger] item_renders(items@[k], answer.items@[k]))
            ==> res is Some,
{
    let mut res = match answer_values(&input.field_names, answer) {
        Some(r) => r,
        None => return None,
    };
    let answer_id = uuid_text(answer.id);
    let paired = if items.len() <= answer.items.len() { items.len() } else { answer.items.len() };
    let ghost fixed = res.deep_view();
    let ghost mut parts: Seq<Seq<Seq<char>>> = seq![];
    let mut k: usize = 0;
    while k < paired
        invariant
            k <= paired,
            paired == paired_items(items@, *answer),
            paired <= items.len(),
            paired <= answer.items.len(),
            answer_id@ == hyphenated_text(answer.id),
            forall|arg: RenderFileAnswerInput| #[trigger] input.render_file_answer.requires((arg,)),
            parts.len() == k,
            forall|j: int| 0 <= j < k ==>
                item_fields_ok(input.render_file_answer, hyphenated_text(answer.id), items@[j], answer.items@[j], #[trigger] parts[j]),
            res.deep_view() =~= fixed + concat_parts(parts),
        decreases paired - k,
    {
        let part = match write_item_fields(&input.render_file_answer, &answer_id, &items[k], &answer.items[k]) {
            Some(p) => p,
            None => {
                assert(!item_renders(items@[k as int], answer.items@[k as int]) || !render_never_fails(input.render_file_answer));
                return None;
            },
        };
        let ghost old_parts = parts;
        proof {
            parts = parts.push(part.deep_view());
            assert(parts.drop_last() =~= old_parts);
        }
        append_values(&mut res, part);
        k = k + 1;
    }
    assert(record_from_parts(input.render_file_answer, input.field_names, items@, *answer, res.deep_view(), parts));
    Some(res)
}

/// Exports the answers to a registration form as a CSV table, given whether
/// the logged-in user holds the permission to read all registration form
/// answers, the registration form the repository found, and the answers it
/// listed.
pub fn run<F: Fn(RenderFileAnswerInput) -> Result<String, String>>(
    input: &Input<F>,
    may_read_all_answers: bool,
    registration_form: Option<RegistrationFormRecord>,
    answers: Vec<Found<AnswerRecord>>,
) -> (res: UseCaseResult<Vec<u8>, Error>)
    requires
        forall|arg: RenderFileAnswerInput| #[trigger] input.render_file_answer.requires((arg,)),
    ensures
        !may_read_all_answers ==> outcome(res) == Outcome::<Vec<u8>, Error>::Refused(Error::InsufficientPermissions),
        may_read_all_answers && registration_form is None ==>
            outcome(res) == Outcome::<Vec<u8>, Error>::Refused(Error::RegistrationFormNotFound),
        may_read_all_answers && registration_form is Some && !all_visible(answers@) ==>
            outcome(res) == Outcome::<Vec<u8>, Error>::Failed,
        res matches Ok(bytes) ==> may_read_all_answers && all_visible(answers@)
            && (registration_form matches Some(form)
                && table_ok(input.render_file_answer, input.field_names, form.items@, entities(answers@), bytes@)),
        may_read_all_answers && all_visible(answers@) && render_never_fails(input.render_file_answer)
            && (registration_form matches Some(form)
                && answers_exportable(input.field_names, form.items@, answers@))
            ==> res is Ok,
{
    if !may_read_all_answers {
        return Err(UseCaseError::UseCase(Error::from_permissions_error()));
    }
    let form = match registration_form {
        Some(form) => form,
        None => return Err(UseCaseError::UseCase(Error::RegistrationFormNotFound)),
    };
    if !check_all_visible(&answers) {
        return Err(UseCaseError::Internal(internal_error("Condition failed: every answer is visible")));
    }
    let mut table: Vec<Vec<String>> = Vec::new();
    let header_row = write_header(&input.field_names, &form.items);
    let width = header_row.len();
    table.push(header_row);
    let ghost header = header_record(input.field_names, form.items@);
    let ghost mut records: Seq<Seq<Seq<char>>> = seq![];
    let mut i: usize = 0;
    while i < answers.len()
        invariant
            i <= answers.len(),
            may_read_all_answers,
            registration_form == Some(form),
            all_visible(answers@),
            forall|arg: RenderFileAnswerInput| #[trigger] input.render_file_answer.requires((arg,)),
            header == header_record(input.field_names, form.items@),
            width == header.len(),
            records.len() == i,
            forall|j: int| 0 <= j < i ==> #[trigger] records[j].len() == header.len(),
            forall|j: int| 0 <= j < i ==>
                record_ok(input.render_file_answer, input.field_names, form.items@, answers@[j].entity, #[trigger] records[j]),
            table.deep_view() =~= seq![header] + records,
        decreases answers.len() - i,
    {
        let record = match write_record(input, &form.items, &answers[i].entity) {
            Some(r) => r,
            None => {
                proof {
                    let a = answers@[i as int].entity;
                    if render_never_fails(input.render_file_answer) && answers_exportable(input.field_names, form.items@, answers@) {
                        assert(answer_exportable(input.field_names, form.items@, answers@[i as int].entity));
                        assert forall|k: int| 0 <= k < paired_items(form.items@, a) implies
                            #[trigger] item_renders(form.items@[k], a.items@[k]) by {
                            assert(answer_fits(form.items@[k], a.items@[k]));
                        }
                        assert(false);
                    }
                }
                return Err(UseCaseError::Internal(internal_error("Failed to render an answer")));
            },
        };
        if record.len() != width {
            proof {
                let a = answers@[i as int].entity;
                if render_never_fails(input.render_file_answer) && answers_exportable(input.field_names, form.items@, answers@) {
                    assert(answer_exportable(input.field_names, form.items@, a));
                    assert forall|k: int| 0 <= k < form.items@.len() implies answer_fits(#[trigger] form.items@[k], a.items@[k]) by {
                        assert(answer_fits(form.items@[k], a.items@[k]));
                    }
                    lemma_record_matches_header(input.render_file_answer, input.field_names, form.items@, a, record.deep_view());
                    assert(false);
                }
            }
            return Err(UseCaseError::Internal(internal_error("A record is not as wide as the header")));
        }
        proof {
            records = records.push(record.deep_view());
        }
        let ghost prev = table.deep_view();
        table.push(record);
        assert(table.deep_view() =~= prev.push(record.deep_view()));
        i = i + 1;
    }
    proof {
        let t = seq![header] + records;
        assert forall|j: int| 0 <= j < t.len() implies #[trigger] t[j].len() == t[0].len() by {
            if j > 0 {
                assert(t[j] == records[j - 1]);
            }
        }
        assert(uniform_width(table.deep_view()));
    }
    match write_table(&table) {
        Ok(bytes) => {
            assert forall|j: int| 0 <= j < records.len() implies
                record_ok(input.render_file_answer, input.field_names, form.items@, entities(answers@)[j], #[trigger] records[j]) by {
                assert(entities(answers@)[j] == answers@[j].entity);
            }
            assert(table_from_records(input.render_file_answer, input.field_names, form.items@, entities(answers@), bytes@, records));
            Ok(bytes)
        },
        Err(message) => Err(UseCaseError::Internal(InternalError { message })),
    }
}

} // verus!
