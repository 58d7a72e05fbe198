//! Exporting every project as a CSV table.
use vstd::prelude::*;
use vstd::utf8::encode_utf8;

use crate::csv_output::{encode_table, uniform_width, write_table};
use crate::error::{internal_error, outcome, InternalError, Outcome, UseCaseError, UseCaseResult};
use crate::export_users::{full_name, full_name_text, header_or_empty, header_text};
use crate::flow::{all_visible, check_all_visible, entities, Found};
pub use crate::model::PersonName;
use crate::model::{ProjectAttribute, ProjectCategory};
use crate::table::{
    agree_on, append_values, lemma_agree_concat, lemma_select_agree, lemma_select_len, push_value,
    select, select_values,
};
use crate::text::{date_time_text, format_date_time, hyphenated_text, renderable_time, uuid_text, JST_OFFSET_SECONDS};

verus! {

#[derive(Debug, Clone)]
pub enum Error {
    InsufficientPermissions,
}

/// What to export: the header of each column (a column without a header is
/// left out) and the names under which categories are written.
#[derive(Debug, Clone)]
pub struct Input {
    pub field_names: InputFieldNames,
    pub category_names: InputCategoryNames,
}

#[derive(Debug, Clone)]
pub struct InputFieldNames {
    pub id: Option<String>,
    pub code: Option<String>,
    pub created_at: Option<String>,
    pub updated_at: Option<String>,
    pub owner_id: Option<String>,
    pub owner_first_name: Option<String>,
    pub owner_last_name: Option<String>,
    pub owner_full_name: Option<String>,
    pub owner_kana_first_name: Option<String>,
    pub owner_kana_last_name: Option<String>,
    pub owner_kana_full_name: Option<String>,
    pub subowner_id: Option<String>,
    pub subowner_first_name: Option<String>,
    pub subowner_last_name: Option<String>,
    pub subowner_full_name: Option<String>,
    pub subowner_kana_first_name: Option<String>,
    pub subowner_kana_last_name: Option<String>,
    pub subowner_kana_full_name: Option<String>,
    pub name: Option<String>,
    pub kana_name: Option<String>,
    pub group_name: Option<String>,
    pub kana_group_name: Option<String>,
    pub description: Option<String>,
    pub category: Option<String>,
    pub attribute_academic: Option<String>,
    pub attribute_artistic: Option<String>,
    pub attribute_committee: Option<String>,
    pub attribute_outdoor: Option<String>,
    pub attribute_indoor: Option<String>,
}

#[derive(Debug, Clone)]
pub struct InputCategoryNames {
    pub general: String,
    pub cooking_requiring_preparation_area: String,
    pub cooking: String,
    pub food: String,
    pub stage: String,
}

/// What the export reads of a project and of its owners.
#[derive(Debug, Clone)]
pub struct ProjectRecord {
    pub id: u128,
    /// The project code as the entity layer renders it.
    pub code: String,
    /// Seconds since the Unix epoch.
    pub created_at: i64,
    /// Seconds since the Unix epoch.
    pub updated_at: i64,
    pub owner_id: String,
    pub owner_name: PersonName,
    pub owner_kana_name: PersonName,
    pub subowner_id: String,
    pub subowner_name: PersonName,
    pub subowner_kana_name: PersonName,
    pub name: String,
    pub kana_name: String,
    pub group_name: String,
    pub kana_group_name: String,
    pub description: String,
    pub category: ProjectCategory,
    pub attributes: Vec<ProjectAttribute>,
}

/// How a flag is written.
pub open spec fn bool_text(b: bool) -> Seq<char> {
    if b { seq!['T', 'R', 'U', 'E'] } else { seq!['F', 'A', 'L', 'S', 'E'] }
}

pub open spec fn category_name(names: InputCategoryNames, category: ProjectCategory) -> Seq<char> {
    match category {
        ProjectCategory::General => names.general@,
        ProjectCategory::CookingRequiringPreparationArea => names.cooking_requiring_preparation_area@,
        ProjectCategory::Cooking => names.cooking@,
        ProjectCategory::Food => names.food@,
        ProjectCategory::Stage => names.stage@,
    }
}

/// The six name columns of a person: first, last and full name, then the
/// same for the kana name.
pub open spec fn name_columns(name: PersonName, kana: PersonName) -> Seq<Seq<char>> {
    seq![
        name.first@,
        name.last@,
        full_name(name.first@, name.last@),
        kana.first@,
        kana.last@,
        full_name(kana.first@, kana.last@),
    ]
}

pub open spec fn chosen_entry(n: InputFieldNames) -> Seq<bool> {
    seq![n.id is Some, n.code is Some, n.created_at is Some, n.updated_at is Some, n.owner_id is Some]
}

pub open spec fn header_entry(n: InputFieldNames) -> Seq<Seq<char>> {
    seq![header_text(n.id), header_text(n.code), header_text(n.created_at), header_text(n.updated_at), header_text(n.owner_id)]
}

pub open spec fn columns_entry(input: Input, p: ProjectRecord) -> Seq<Seq<char>> {
    columns_entry_with_times(
        input,
        p,
        date_time_text(p.created_at as int, JST_OFFSET_SECONDS as int),
        date_time_text(p.updated_at as int, JST_OFFSET_SECONDS as int),
    )
}

/// The entry columns with the given renderings of the creation and update times.
pub open spec fn columns_entry_with_times(input: Input, p: ProjectRecord, created_at: Seq<char>, updated_at: Seq<char>) -> Seq<Seq<char>> {
    seq![
        hyphenated_text(p.id),
        p.code@,
        created_at,
        updated_at,
        p.owner_id@,
    ]
}

pub open spec fn chosen_owner(n: InputFieldNames) -> Seq<bool> {
    seq![n.owner_first_name is Some, n.owner_last_name is Some, n.owner_full_name is Some, n.owner_kana_first_name is Some, n.owner_kana_last_name is Some, n.owner_kana_full_name is Some]
}

pub open spec fn header_owner(n: InputFieldNames) -> Seq<Seq<char>> {
    seq![header_text(n.owner_first_name), header_text(n.owner_last_name), header_text(n.owner_full_name), header_text(n.owner_kana_first_name), header_text(n.owner_kana_last_name), header_text(n.owner_kana_full_name)]
}

pub open spec fn columns_owner(input: Input, p: ProjectRecord) -> Seq<Seq<char>> {
    name_columns(p.owner_name, p.owner_kana_name)
}

pub open spec fn chosen_subowner_id(n: InputFieldNames) -> Seq<bool> {
    seq![n.subowner_id is Some]
}

pub open spec fn header_subowner_id(n: InputFieldNames) -> Seq<Seq<char>> {
    seq![header_text(n.subowner_id)]
}

pub open spec fn columns_subowner_id(input: Input, p: ProjectRecord) -> Seq<Seq<char>> {
    seq![
        p.subowner_id@,
    ]
}

pub open spec fn chosen_subowner(n: InputFieldNames) -> Seq<bool> {
    seq![n.subowner_first_name is Some, n.subowner_last_name is Some, n.subowner_full_name is Some, n.subowner_kana_first_name is Some, n.subowner_kana_last_name is Some, n.subowner_kana_full_name is Some]
}

pub open spec fn header_subowner(n: InputFieldNames) -> Seq<Seq<char>> {
    seq![header_text(n.subowner_first_name), header_text(n.subowner_last_name), header_text(n.subowner_full_name), header_text(n.subowner_kana_first_name), header_text(n.subowner_kana_last_name), header_text(n.subowner_kana_full_name)]
}

pub open spec fn columns_subowner(input: Input, p: ProjectRecord) -> Seq<Seq<char>> {
    name_columns(p.subowner_name, p.subowner_kana_name)
}

pub open spec fn chosen_naming(n: InputFieldNames) -> Seq<bool> {
    seq![n.name is Some, n.kana_name is Some, n.group_name is Some, n.kana_group_name is Some, n.description is Some, n.category is Some]
}

pub open spec fn header_naming(n: InputFieldNames) -> Seq<Seq<char>> {
    seq![header_text(n.name), header_text(n.kana_name), header_text(n.group_name), header_text(n.kana_group_name), header_text(n.description), header_text(n.category)]
}

pub open spec fn columns_naming(input: Input, p: ProjectRecord) -> Seq<Seq<char>> {
    seq![
        p.name@,
        p.kana_name@,
        p.group_name@,
        p.kana_group_name@,
        p.description@,
        category_name(input.category_names, p.category),
    ]
}

pub open spec fn chosen_attributes(n: InputFieldNames) -> Seq<bool> {
    seq![n.attribute_academic is Some, n.attribute_artistic is Some, n.attribute_committee is Some, n.attribute_outdoor is Some, n.attribute_indoor is Some]
}

pub open spec fn header_attributes(n: InputFieldNames) -> Seq<Seq<char>> {
    seq![header_text(n.attribute_academic), header_text(n.attribute_artistic), header_text(n.attribute_committee), header_text(n.attribute_outdoor), header_text(n.attribute_indoor)]
}

pub open spec fn columns_attributes(input: Input, p: ProjectRecord) -> Seq<Seq<char>> {
    seq![
        bool_text(p.attributes@.contains(ProjectAttribute::Academic)),
        bool_text(p.attributes@.contains(ProjectAttribute::Artistic)),
        bool_text(p.attributes@.contains(ProjectAttribute::Committee)),
        bool_text(p.attributes@.contains(ProjectAttribute::Outdoor)),
        bool_text(p.attributes@.contains(ProjectAttribute::Indoor)),
    ]
}


/// Which of the columns are exported, in column order.
pub open spec fn chosen_columns(n: InputFieldNames) -> Seq<bool> {
    chosen_entry(n) + chosen_owner(n) + chosen_subowner_id(n) + chosen_subowner(n) + chosen_naming(n) + chosen_attributes(n)
}

/// The headers of all columns, in column order.
pub open spec fn header_texts(n: InputFieldNames) -> Seq<Seq<char>> {
    header_entry(n) + header_owner(n) + header_subowner_id(n) + header_subowner(n) + header_naming(n) + header_attributes(n)
}

/// The values of all columns for a project, in column order.
pub open spec fn project_columns(input: Input, p: ProjectRecord) -> Seq<Seq<char>> {
    project_columns_with_times(
        input,
        p,
        date_time_text(p.created_at as int, JST_OFFSET_SECONDS as int),
        date_time_text(p.updated_at as int, JST_OFFSET_SECONDS as int),
    )
}

/// The values of all columns for a project, with the given renderings of
/// its creation and update times.
pub open spec fn project_columns_with_times(input: Input, p: ProjectRecord, created_at: Seq<char>, updated_at: Seq<char>) -> Seq<Seq<char>> {
    columns_entry_with_times(input, p, created_at, updated_at) + columns_owner(input, p) + columns_subowner_id(input, p) + columns_subowner(input, p) + columns_naming(input, p) + columns_attributes(input, p)
}

/// The header record.
pub open spec fn header_record(input: Input) -> Seq<Seq<char>> {
    select(chosen_columns(input.field_names), header_texts(input.field_names))
}

/// The record of a project.
pub open spec fn project_record(input: Input, p: ProjectRecord) -> Seq<Seq<char>> {
    select(chosen_columns(input.field_names), project_columns(input, p))
}

/// The exported table: the header, then one record per project in order.
pub open spec fn projects_table(input: Input, projects: Seq<ProjectRecord>) -> Seq<Seq<Seq<char>>> {
    seq![header_record(input)] + projects.map_values(|p: ProjectRecord| project_record(input, p))
}

/// Every record of the exported table has exactly as many fields as the
/// header, whatever columns are chosen and whatever the projects hold.
pub proof fn lemma_projects_table_uniform(input: Input, projects: Seq<ProjectRecord>)
    ensures
        uniform_width(projects_table(input, projects)),
        forall|i: int| 0 <= i < projects.len() ==>
            #[trigger] project_record(input, projects[i]).len() == header_record(input).len(),
{
    let chosen = chosen_columns(input.field_names);
    lemma_select_len(chosen, header_texts(input.field_names));
    assert forall|i: int| 0 <= i < projects.len() implies
        #[trigger] project_record(input, projects[i]).len() == header_record(input).len() by {
        lemma_select_len(chosen, project_columns(input, projects[i]));
    }
    let t = projects_table(input, projects);
    assert forall|i: int| 0 <= i < t.len() implies #[trigger] t[i].len() == t[0].len() by {
        if i > 0 {
            assert(t[i] == project_record(input, projects[i - 1]));
        }
    }
}

fn chosen_entry_vec(n: &InputFieldNames) -> (res: Vec<bool>)
    ensures
        res@ == chosen_entry(*n),
{
    let mut res: Vec<bool> = Vec::new();
    res.push(n.id.is_some());
    res.push(n.code.is_some());
    res.push(n.created_at.is_some());
    res.push(n.updated_at.is_some());
    res.push(n.owner_id.is_some());
    assert(res@ =~= chosen_entry(*n));
    res
}

fn header_entry_vec(n: &InputFieldNames) -> (res: Vec<String>)
    ensures
        res.deep_view() == header_entry(*n),
{
    let mut res: Vec<String> = Vec::new();
    push_value(&mut res, header_or_empty(&n.id));
    push_value(&mut res, header_or_empty(&n.code));
    push_value(&mut res, header_or_empty(&n.created_at));
    push_value(&mut res, header_or_empty(&n.updated_at));
    push_value(&mut res, header_or_empty(&n.owner_id));
    assert(res.deep_view() =~= header_entry(*n));
    res
}

fn columns_entry_vec(input: &Input, project: &ProjectRecord, created_at: String, updated_at: String) -> (res: Vec<String>)
    ensures
        agree_on(chosen_entry(input.field_names), res.deep_view(), columns_entry_with_times(*input, *project, created_at@, updated_at@)),
{
    let mut res: Vec<String> = Vec::new();
    push_value(&mut res, uuid_text(project.id));
    push_value(&mut res, project.code.clone());
    push_value(&mut res, created_at);
    push_value(&mut res, updated_at);
    push_value(&mut res, project.owner_id.clone());
    let ghost full = columns_entry_with_times(*input, *project, created_at@, updated_at@);
    let ghost chosen = chosen_entry(input.field_names);
    assert forall|i: int| 0 <= i < chosen.len() && #[trigger] chosen[i] implies res.deep_view()[i] == full[i] by {
    }
    res
}

fn chosen_owner_vec(n: &InputFieldNames) -> (res: Vec<bool>)
    ensures
        res@ == chosen_owner(*n),
{
    let mut res: Vec<bool> = Vec::new();
    res.push(n.owner_first_name.is_some());
    res.push(n.owner_last_name.is_some());
    res.push(n.owner_full_name.is_some());
    res.push(n.owner_kana_first_name.is_some());
    res.push(n.owner_kana_last_name.is_some());
    res.push(n.owner_kana_full_name.is_some());
    assert(res@ =~= chosen_owner(*n));
    res
}

fn header_owner_vec(n: &InputFieldNames) -> (res: Vec<String>)
    ensures
        res.deep_view() == header_owner(*n),
{
    let mut res: Vec<String> = Vec::new();
    push_value(&mut res, header_or_empty(&n.owner_first_name));
    push_value(&mut res, header_or_empty(&n.owner_last_name));
    push_value(&mut res, header_or_empty(&n.owner_full_name));
    push_value(&mut res, header_or_empty(&n.owner_kana_first_name));
    push_value(&mut res, header_or_empty(&n.owner_kana_last_name));
    push_value(&mut res, header_or_empty(&n.owner_kana_full_name));
    assert(res.deep_view() =~= header_owner(*n));
    res
}

fn chosen_subowner_id_vec(n: &InputFieldNames) -> (res: Vec<bool>)
    ensures
        res@ == chosen_subowner_id(*n),
{
    let mut res: Vec<bool> = Vec::new();
    res.push(n.subowner_id.is_some());
    assert(res@ =~= chosen_subowner_id(*n));
    res
}

fn header_subowner_id_vec(n: &InputFieldNames) -> (res: Vec<String>)
    ensures
        res.deep_view() == header_subowner_id(*n),
{
    let mut res: Vec<String> = Vec::new();
    push_value(&mut res, header_or_empty(&n.subowner_id));
    assert(res.deep_view() =~= header_subowner_id(*n));
    res
}

fn columns_subowner_id_vec(input: &Input, project: &ProjectRecord) -> (res: Vec<String>)
    ensures
        agree_on(chosen_subowner_id(input.field_names), res.deep_view(), columns_subowner_id(*input, *project)),
{
    let mut res: Vec<String> = Vec::new();
    push_value(&mut res, project.subowner_id.clone());
    let ghost full = columns_subowner_id(*input, *project);
    let ghost chosen = chosen_subowner_id(input.field_names);
    assert forall|i: int| 0 <= i < chosen.len() && #[trigger] chosen[i] implies res.deep_view()[i] == full[i] by {
    }
    res
}

fn chosen_subowner_vec(n: &InputFieldNames) -> (res: Vec<bool>)
    ensures
        res@ == chosen_subowner(*n),
{
    let mut res: Vec<bool> = Vec::new();
    res.push(n.subowner_first_name.is_some());
    res.push(n.subowner_last_name.is_some());
    res.push(n.subowner_full_name.is_some());
    res.push(n.subowner_kana_first_name.is_some());
    res.push(n.subowner_kana_last_name.is_some());
    res.push(n.subowner_kana_full_name.is_some());
    assert(res@ =~= chosen_subowner(*n));
    res
}

fn header_subowner_vec(n: &InputFieldNames) -> (res: Vec<String>)
    ensures
        res.deep_view() == header_subowner(*n),
{
    let mut res: Vec<String> = Vec::new();
    push_value(&mut res, header_or_empty(&n.subowner_first_name));
    push_value(&mut res, header_or_empty(&n.subowner_last_name));
    push_value(&mut res, header_or_empty(&n.subowner_full_name));
    push_value(&mut res, header_or_empty(&n.subowner_kana_first_name));
    push_value(&mut res, header_or_empty(&n.subowner_kana_last_name));
    push_value(&mut res, header_or_empty(&n.subowner_kana_full_name));
    assert(res.deep_view() =~= header_subowner(*n));
    res
}

fn chosen_naming_vec(n: &InputFieldNames) -> (res: Vec<bool>)
    ensures
        res@ == chosen_naming(*n),
{
    let mut res: Vec<bool> = Vec::new();
    res.push(n.name.is_some());
    res.push(n.kana_name.is_some());
    res.push(n.group_name.is_some());
    res.push(n.kana_group_name.is_some());
    res.push(n.description.is_some());
    res.push(n.category.is_some());
    assert(res@ =~= chosen_naming(*n));
    res
}

fn header_naming_vec(n: &InputFieldNames) -> (res: Vec<String>)
    ensures
        res.deep_view() == header_naming(*n),
{
    let mut res: Vec<String> = Vec::new();
    push_value(&mut res, header_or_empty(&n.name));
    push_value(&mut res, header_or_empty(&n.kana_name));
    push_value(&mut res, header_or_empty(&n.group_name));
    push_value(&mut res, header_or_empty(&n.kana_group_name));
    push_value(&mut res, header_or_empty(&n.description));
    push_value(&mut res, header_or_empty(&n.category));
    assert(res.deep_view() =~= header_naming(*n));
    res
}

fn columns_naming_vec(input: &Input, project: &ProjectRecord) -> (res: Vec<String>)
    ensures
        agree_on(chosen_naming(input.field_names), res.deep_view(), columns_naming(*input, *project)),
{
    let mut res: Vec<String> = Vec::new();
    push_value(&mut res, project.name.clone());
    push_value(&mut res, project.kana_name.clone());
    push_value(&mut res, project.group_name.clone());
    push_value(&mut res, project.kana_group_name.clone());
    push_value(&mut res, project.description.clone());
    push_value(&mut res, category_name_text(&input.category_names, project.category));
    let ghost full = columns_naming(*input, *project);
    let ghost chosen = chosen_naming(input.field_names);
    assert forall|i: int| 0 <= i < chosen.len() && #[trigger] chosen[i] implies res.deep_view()[i] == full[i] by {
    }
    res
}

fn chosen_attributes_vec(n: &InputFieldNames) -> (res: Vec<bool>)
    ensures
        res@ == chosen_attributes(*n),
{
    let mut res: Vec<bool> = Vec::new();
    res.push(n.attribute_academic.is_some());
    res.push(n.attribute_artistic.is_some());
    res.push(n.attribute_committee.is_some());
    res.push(n.attribute_outdoor.is_some());
    res.push(n.attribute_indoor.is_some());
    assert(res@ =~= chosen_attributes(*n));
    res
}

fn header_attributes_vec(n: &InputFieldNames) -> (res: Vec<String>)
    ensures
        res.deep_view() == header_attributes(*n),
{
    let mut res: Vec<String> = Vec::new();
    push_value(&mut res, header_or_empty(&n.attribute_academic));
    push_value(&mut res, header_or_empty(&n.attribute_artistic));
    push_value(&mut res, header_or_empty(&n.attribute_committee));
    push_value(&mut res, header_or_empty(&n.attribute_outdoor));
    push_value(&mut res, header_or_empty(&n.attribute_indoor));
    assert(res.deep_view() =~= header_attributes(*n));
    res
}

fn columns_attributes_vec(input: &Input, project: &ProjectRecord) -> (res: Vec<String>)
    ensures
        agree_on(chosen_attributes(input.field_names), res.deep_view(), columns_attributes(*input, *project)),
{
    let mut res: Vec<String> = Vec::new();
    push_value(&mut res, bool_field(contains_attribute(&project.attributes, ProjectAttribute::Academic)));
    push_value(&mut res, bool_field(contains_attribute(&project.attributes, ProjectAttribute::Artistic)));
    push_value(&mut res, bool_field(contains_attribute(&project.attributes, ProjectAttribute::Committee)));
    push_value(&mut res, bool_field(contains_attribute(&project.attributes, ProjectAttribute::Outdoor)));
    push_value(&mut res, bool_field(contains_attribute(&project.attributes, ProjectAttribute::Indoor)));
    let ghost full = columns_attributes(*input, *project);
    let ghost chosen = chosen_attributes(input.field_names);
    assert forall|i: int| 0 <= i < chosen.len() && #[trigger] chosen[i] implies res.deep_view()[i] == full[i] by {
    }
    res
}


fn chosen_vec(n: &InputFieldNames) -> (res: Vec<bool>)
    ensures
        res@ == chosen_columns(*n),
{
    let mut res = chosen_entry_vec(n);
    let mut more = chosen_owner_vec(n);
    res.append(&mut more);
    let mut more = chosen_subowner_id_vec(n);
    res.append(&mut more);
    let mut more = chosen_subowner_vec(n);
    res.append(&mut more);
    let mut more = chosen_naming_vec(n);
    res.append(&mut more);
    let mut more = chosen_attributes_vec(n);
    res.append(&mut more);
    res
}

/// Writes the header record.
pub fn write_header(input: &Input) -> (res: Vec<String>)
    ensures
        res.deep_view() == header_record(*input),
{
    let n = &input.field_names;
    let chosen = chosen_vec(n);
    let mut names = header_entry_vec(n);
    append_values(&mut names, header_owner_vec(n));
    append_values(&mut names, header_subowner_id_vec(n));
    append_values(&mut names, header_subowner_vec(n));
    append_values(&mut names, header_naming_vec(n));
    append_values(&mut names, header_attributes_vec(n));
    assert(names.deep_view() =~= header_texts(*n));
    assert(names.deep_view().len() == names@.len());
    select_values(&chosen, names)
}

/// Writes a flag.
pub fn bool_field(b: bool) -> (res: String)
    ensures
        res@ == bool_text(b),
{
    proof {
        reveal_strlit("TRUE");
        reveal_strlit("FALSE");
    }
    if b {
        String::from_str("TRUE")
    } else {
        String::from_str("FALSE")
    }
}

/// Whether a project carries an attribute.
pub fn contains_attribute(attributes: &Vec<ProjectAttribute>, attribute: ProjectAttribute) -> (res: bool)
    ensures
        res == attributes@.contains(attribute),
{
    let mut i: usize = 0;
    while i < attributes.len()
        invariant
            i <= attributes.len(),
            forall|j: int| 0 <= j < i ==> attributes@[j] != attribute,
        decreases attributes.len() - i,
    {
        if attributes[i] == attribute {
            return true;
        }
        i = i + 1;
    }
    false
}

fn category_name_text(names: &InputCategoryNames, category: ProjectCategory) -> (res: String)
    ensures
        res@ == category_name(*names, category),
{
    match category {
        ProjectCategory::General => names.general.clone(),
        ProjectCategory::CookingRequiringPreparationArea => names.cooking_requiring_preparation_area.clone(),
        ProjectCategory::Cooking => names.cooking.clone(),
        ProjectCategory::Food => names.food.clone(),
        ProjectCategory::Stage => names.stage.clone(),
    }
}

/// Writes the chosen name columns of a person; the others are left empty.
pub fn name_values(
    first_name: &Option<String>,
    last_name: &Option<String>,
    full: &Option<String>,
    kana_first_name: &Option<String>,
    kana_last_name: &Option<String>,
    kana_full: &Option<String>,
    name: &PersonName,
    kana: &PersonName,
) -> (res: Vec<String>)
    ensures
        agree_on(
            seq![first_name is Some, last_name is Some, full is Some, kana_first_name is Some, kana_last_name is Some, kana_full is Some],
            res.deep_view(),
            name_columns(*name, *kana),
        ),
{
    let mut res: Vec<String> = Vec::new();
    push_value(&mut res, name.first.clone());
    push_value(&mut res, name.last.clone());
    push_value(&mut res, if full.is_some() { full_name_text(&name.first, &name.last) } else { String::new() });
    push_value(&mut res, kana.first.clone());
    push_value(&mut res, kana.last.clone());
    push_value(&mut res, if kana_full.is_some() { full_name_text(&kana.first, &kana.last) } else { String::new() });
    let ghost chosen = seq![first_name is Some, last_name is Some, full is Some, kana_first_name is Some, kana_last_name is Some, kana_full is Some];
    let ghost cols = name_columns(*name, *kana);
    assert forall|i: int| 0 <= i < chosen.len() && #[trigger] chosen[i] implies res.deep_view()[i] == cols[i] by {
    }
    res
}

/// Renders a point in time for a chosen column, or nothing for a column left out.
pub fn time_field(chosen: bool, secs: i64) -> (res: Option<String>)
    ensures
        chosen ==> (res matches Some(s) ==> s@ == date_time_text(secs as int, JST_OFFSET_SECONDS as int)),
        !chosen || renderable_time(secs as int) ==> res is Some,
{
    if chosen {
        format_date_time(secs, JST_OFFSET_SECONDS)
    } else {
        Some(String::new())
    }
}

/// Whether the creation and update times of a project can be rendered,
/// where their columns are chosen.
pub open spec fn renderable_times(n: InputFieldNames, p: ProjectRecord) -> bool {
    (n.created_at is None || renderable_time(p.created_at as int))
        && (n.updated_at is None || renderable_time(p.updated_at as int))
}

/// Writes the record of a project, given the renderings of its creation and
/// update times (each used only where its column is chosen).
pub fn write_record_with_times(input: &Input, project: &ProjectRecord, created_at: String, updated_at: String) -> (res: Vec<String>)
    ensures
        res.deep_view() == select(chosen_columns(input.field_names), project_columns_with_times(*input, *project, created_at@, updated_at@)),
{
    let n = &input.field_names;
    let chosen = chosen_vec(n);
    let ghost created_text = created_at@;
    let ghost updated_text = updated_at@;
    let mut values: Vec<String> = Vec::new();
    let ghost mut chosen_so_far: Seq<bool> = seq![];
    let ghost mut full_so_far: Seq<Seq<char>> = seq![];
    let part = columns_entry_vec(input, project, created_at, updated_at);
    proof {
        lemma_agree_concat(chosen_so_far, values.deep_view(), full_so_far, chosen_entry(*n), part.deep_view(), columns_entry_with_times(*input, *project, created_text, updated_text));
        chosen_so_far = chosen_so_far + chosen_entry(*n);
        full_so_far = full_so_far + columns_entry_with_times(*input, *project, created_text, updated_text);
    }
    append_values(&mut values, part);
    let part = name_values(&n.owner_first_name, &n.owner_last_name, &n.owner_full_name, &n.owner_kana_first_name, &n.owner_kana_last_name, &n.owner_kana_full_name, &project.owner_name, &project.owner_kana_name);
    proof {
        lemma_agree_concat(chosen_so_far, values.deep_view(), full_so_far, chosen_owner(*n), part.deep_view(), columns_owner(*input, *project));
        chosen_so_far = chosen_so_far + chosen_owner(*n);
        full_so_far = full_so_far + columns_owner(*input, *project);
    }
    append_values(&mut values, part);
    let part = columns_subowner_id_vec(input, project);
    proof {
        lemma_agree_concat(chosen_so_far, values.deep_view(), full_so_far, chosen_subowner_id(*n), part.deep_view(), columns_subowner_id(*input, *project));
        chosen_so_far = chosen_so_far + chosen_subowner_id(*n);
        full_so_far = full_so_far + columns_subowner_id(*input, *project);
    }
    append_values(&mut values, part);
    let part = name_values(&n.subowner_first_name, &n.subowner_last_name, &n.subowner_full_name, &n.subowner_kana_first_name, &n.subowner_kana_last_name, &n.subowner_kana_full_name, &project.subowner_name, &project.subowner_kana_name);
    proof {
        lemma_agree_concat(chosen_so_far, values.deep_view(), full_so_far, chosen_subowner(*n), part.deep_view(), columns_subowner(*input, *project));
        chosen_so_far = chosen_so_far + chosen_subowner(*n);
        full_so_far = full_so_far + columns_subowner(*input, *project);
    }
    append_values(&mut values, part);
    let part = columns_naming_vec(input, project);
    proof {
        lemma_agree_concat(chosen_so_far, values.deep_view(), full_so_far, chosen_naming(*n), part.deep_view(), columns_naming(*input, *project));
        chosen_so_far = chosen_so_far + chosen_naming(*n);
        full_so_far = full_so_far + columns_naming(*input, *project);
    }
    append_values(&mut values, part);
    let part = columns_attributes_vec(input, project);
    proof {
        lemma_agree_concat(chosen_so_far, values.deep_view(), full_so_far, chosen_attributes(*n), part.deep_view(), columns_attributes(*input, *project));
        chosen_so_far = chosen_so_far + chosen_attributes(*n);
        full_so_far = full_so_far + columns_attributes(*input, *project);
    }
    append_values(&mut values, part);
    assert(chosen_so_far =~= chosen_columns(*n));
    assert(values.deep_view().len() == values@.len());
    assert(full_so_far =~= project_columns_with_times(*input, *project, created_text, updated_text));
    proof {
        lemma_select_agree(chosen@, values.deep_view(), full_so_far);
    }
    select_values(&chosen, values)
}

/// Writes the record of a project. It gives `None` only where a creation or
/// update time is exported and the time library refuses to render it.
pub fn write_record(input: &Input, project: &ProjectRecord) -> (res: Option<Vec<String>>)
    ensures
        res matches Some(r) ==> r.deep_view() == project_record(*input, *project),
        (input.field_names.created_at is None || renderable_time(project.created_at as int))
            && (input.field_names.updated_at is None || renderable_time(project.updated_at as int)) ==> res is Some,
{
    let n = &input.field_names;
    let created_at = match time_field(n.created_at.is_some(), project.created_at) {
        Some(s) => s,
        None => return None,
    };
    let updated_at = match time_field(n.updated_at.is_some(), project.updated_at) {
        Some(s) => s,
        None => return None,
    };
    let ghost created_text = created_at@;
    let ghost updated_text = updated_at@;
    let res = write_record_with_times(input, project, created_at, updated_at);
    proof {
        let chosen = chosen_columns(input.field_names);
        let with_texts = project_columns_with_times(*input, *project, created_text, updated_text);
        let cols = project_columns(*input, *project);
        assert forall|i: int| 0 <= i < chosen.len() && #[trigger] chosen[i] implies with_texts[i] == cols[i] by {
        }
        lemma_select_agree(chosen, with_texts, cols);
    }
    Some(res)
}

/// Exports every project as a CSV table, given whether the logged-in user
/// holds the permission to read all projects and the projects the repository
/// listed. A project counts as visible where the user may see it and the
/// names of both its owners.
pub fn run(input: &Input, may_read_all_projects: bool, projects: Vec<Found<ProjectRecord>>) -> (res: UseCaseResult<Vec<u8>, Error>)
    ensures
        !may_read_all_projects ==> outcome(res) == Outcome::<Vec<u8>, Error>::Refused(Error::InsufficientPermissions),
        may_read_all_projects && !all_visible(projects@) ==> outcome(res) == Outcome::<Vec<u8>, Error>::Failed,
        res matches Ok(bytes) ==> may_read_all_projects && all_visible(projects@)
            && bytes@ == encode_utf8(encode_table(projects_table(*input, entities(projects@)))),
        may_read_all_projects && all_visible(projects@)
            && (forall|i: int| 0 <= i < projects@.len() ==> #[trigger] renderable_times(input.field_names, projects@[i].entity))
            ==> res is Ok,
{
    if !may_read_all_projects {
        return Err(UseCaseError::UseCase(Error::InsufficientPermissions));
    }
    if !check_all_visible(&projects) {
        return Err(UseCaseError::Internal(internal_error("Condition failed: every project is visible")));
    }
    let mut table: Vec<Vec<String>> = Vec::new();
    table.push(write_header(input));
    let mut i: usize = 0;
    while i < projects.len()
        invariant
            i <= projects.len(),
            may_read_all_projects,
            all_visible(projects@),
            table.deep_view() =~= projects_table(*input, entities(projects@).take(i as int)),
        decreases projects.len() - i,
    {
        let record = match write_record(input, &projects[i].entity) {
            Some(r) => r,
            None => {
                assert(!renderable_times(input.field_names, projects@[i as int].entity));
                return Err(UseCaseError::Internal(internal_error("Failed to render a date")));
            },
        };
        let ghost prev = table.deep_view();
        table.push(record);
        assert(entities(projects@).take(i + 1) =~= entities(projects@).take(i as int).push(projects@[i as int].entity));
        assert(table.deep_view() =~= prev.push(record.deep_view()));
        i = i + 1;
    }
    assert(entities(projects@).take(i as int) =~= entities(projects@));
    proof {
        lemma_projects_table_uniform(*input, entities(projects@));
    }
    match write_table(&table) {
        Ok(bytes) => Ok(bytes),
        Err(message) => Err(UseCaseError::Internal(InternalError { message })),
    }
}

} // verus!
