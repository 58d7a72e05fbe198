//! Exporting every user as a CSV table.
use vstd::prelude::*;
use vstd::utf8::encode_utf8;

use crate::csv_output::{encode_table, uniform_width, write_table};
use crate::error::{outcome, Outcome, UseCaseError, UseCaseResult};
use crate::flow::{all_visible, check_all_visible, entities, Found};
use crate::model::{UserCategory, UserRole};
use crate::table::{lemma_select_agree, lemma_select_len, push_value, select, select_values};
use crate::text::{date_time_text, format_date_time, renderable_time, JST_OFFSET_SECONDS};

verus! {

#[derive(Debug, Clone)]
pub enum Error {
    InsufficientPermissions,
}

/// What to export: the header of each column (a column without a header is
/// left out) and the names under which roles and categories are written.
#[derive(Debug, Clone)]
pub struct Input {
    pub field_names: InputFieldNames,
    pub role_names: InputRoleNames,
    pub category_names: InputCategoryNames,
}

#[derive(Debug, Clone)]
pub struct InputFieldNames {
    pub id: Option<String>,
    pub created_at: Option<String>,
    pub first_name: Option<String>,
    pub last_name: Option<String>,
    pub full_name: Option<String>,
    pub kana_first_name: Option<String>,
    pub kana_last_name: Option<String>,
    pub kana_full_name: Option<String>,
    pub email: Option<String>,
    pub phone_number: Option<String>,
    pub affiliation: Option<String>,
    pub role: Option<String>,
    pub category: Option<String>,
}

#[derive(Debug, Clone)]
pub struct InputRoleNames {
    pub administrator: String,
    pub committee_operator: String,
    pub committee: String,
    pub general: String,
}

#[derive(Debug, Clone)]
pub struct InputCategoryNames {
    pub undergraduate_student: String,
    pub graduate_student: String,
    pub academic_staff: String,
}

/// What the export reads of a user.
#[derive(Debug, Clone)]
pub struct UserRecord {
    pub id: String,
    /// Seconds since the Unix epoch.
    pub created_at: i64,
    pub first_name: String,
    pub last_name: String,
    pub kana_first_name: String,
    pub kana_last_name: String,
    pub email: String,
    pub phone_number: String,
    pub affiliation: String,
    pub role: UserRole,
    pub category: UserCategory,
}

/// The header of an optional column, or nothing.
pub open spec fn header_text(name: Option<String>) -> Seq<char> {
    match name {
        Some(s) => s@,
        None => seq![],
    }
}

/// Which of the columns are exported, in column order.
pub open spec fn chosen_columns(n: InputFieldNames) -> Seq<bool> {
    seq![
        n.id is Some,
        n.created_at is Some,
        n.first_name is Some,
        n.last_name is Some,
        n.full_name is Some,
        n.kana_first_name is Some,
        n.kana_last_name is Some,
        n.kana_full_name is Some,
        n.email is Some,
        n.phone_number is Some,
        n.affiliation is Some,
        n.role is Some,
        n.category is Some,
    ]
}

/// The headers of all columns, in column order.
pub open spec fn header_texts(n: InputFieldNames) -> Seq<Seq<char>> {
    seq![
        header_text(n.id),
        header_text(n.created_at),
        header_text(n.first_name),
        header_text(n.last_name),
        header_text(n.full_name),
        header_text(n.kana_first_name),
        header_text(n.kana_last_name),
        header_text(n.kana_full_name),
        header_text(n.email),
        header_text(n.phone_number),
        header_text(n.affiliation),
        header_text(n.role),
        header_text(n.category),
    ]
}

/// A full name: the last name, a space, the first name.
pub open spec fn full_name(first: Seq<char>, last: Seq<char>) -> Seq<char> {
    last + seq![' '] + first
}

/// Whether a phone number is written in the Japanese international form.
pub open spec fn has_japan_prefix(p: Seq<char>) -> bool {
    p.len() >= 3 && p[0] == '+' && p[1] == '8' && p[2] == '1'
}

/// A phone number as it is exported: in the domestic form (a leading `0`
/// in place of `+81`), wrapped as `="..."` so that spreadsheets keep it as text.
pub open spec fn phone_field(p: Seq<char>) -> Seq<char> {
    if has_japan_prefix(p) {
        seq!['=', '"', '0'] + p.skip(3) + seq!['"']
    } else {
        seq!['=', '"'] + p + seq!['"']
    }
}

pub open spec fn role_name(names: InputRoleNames, role: UserRole) -> Seq<char> {
    match role {
        UserRole::Administrator => names.administrator@,
        UserRole::CommitteeOperator => names.committee_operator@,
        UserRole::Committee => names.committee@,
        UserRole::General => names.general@,
    }
}

pub open spec fn category_name(names: InputCategoryNames, category: UserCategory) -> Seq<char> {
    match category {
        UserCategory::UndergraduateStudent => names.undergraduate_student@,
        UserCategory::GraduateStudent => names.graduate_student@,
        UserCategory::AcademicStaff => names.academic_staff@,
    }
}

/// The values of all columns for a user, in column order.
pub open spec fn user_columns(input: Input, u: UserRecord) -> Seq<Seq<char>> {
    user_columns_with_time(input, u, date_time_text(u.created_at as int, JST_OFFSET_SECONDS as int))
}

/// The values of all columns for a user, with the given rendering of its
/// creation time.
pub open spec fn user_columns_with_time(input: Input, u: UserRecord, created_at: Seq<char>) -> Seq<Seq<char>> {
    seq![
        u.id@,
        created_at,
        u.first_name@,
        u.last_name@,
        full_name(u.first_name@, u.last_name@),
        u.kana_first_name@,
        u.kana_last_name@,
        full_name(u.kana_first_name@, u.kana_last_name@),
        u.email@,
        phone_field(u.phone_number@),
        u.affiliation@,
        role_name(input.role_names, u.role),
        category_name(input.category_names, u.category),
    ]
}

/// The header record.
pub open spec fn header_record(input: Input) -> Seq<Seq<char>> {
    select(chosen_columns(input.field_names), header_texts(input.field_names))
}

/// The record of a user.
pub open spec fn user_record(input: Input, u: UserRecord) -> Seq<Seq<char>> {
    select(chosen_columns(input.field_names), user_columns(input, u))
}

/// The exported table: the header, then one record per user in order.
pub open spec fn users_table(input: Input, users: Seq<UserRecord>) -> Seq<Seq<Seq<char>>> {
    seq![header_record(input)] + users.map_values(|u: UserRecord| user_record(input, u))
}

/// Every record of the exported table has exactly as many fields as the
/// header, whatever columns are chosen and whatever the users hold.
pub proof fn lemma_users_table_uniform(input: Input, users: Seq<UserRecord>)
    ensures
        uniform_width(users_table(input, users)),
        forall|i: int| 0 <= i < users.len() ==>
            #[trigger] user_record(input, users[i]).len() == header_record(input).len(),
{
    let chosen = chosen_columns(input.field_names);
    lemma_select_len(chosen, header_texts(input.field_names));
    assert forall|i: int| 0 <= i < users.len() implies
        #[trigger] user_record(input, users[i]).len() == header_record(input).len() by {
        lemma_select_len(chosen, user_columns(input, users[i]));
    }
    let t = users_table(input, users);
    assert forall|i: int| 0 <= i < t.len() implies #[trigger] t[i].len() == t[0].len() by {
        if i > 0 {
            assert(t[i] == user_record(input, users[i - 1]));
        }
    }
}

fn chosen_vec(n: &InputFieldNames) -> (res: Vec<bool>)
    ensures
        res@ == chosen_columns(*n),
{
    let res = vec![
        n.id.is_some(), n.created_at.is_some(), n.first_name.is_some(), n.last_name.is_some(),
        n.full_name.is_some(), n.kana_first_name.is_some(), n.kana_last_name.is_some(),
        n.kana_full_name.is_some(), n.email.is_some(), n.phone_number.is_some(),
        n.affiliation.is_some(), n.role.is_some(), n.category.is_some(),
    ];
    assert(res@ =~= chosen_columns(*n));
    res
}

pub fn header_or_empty(name: &Option<String>) -> (res: String)
    ensures
        res@ == header_text(*name),
{
    match name {
        Some(s) => s.clone(),
        None => String::new(),
    }
}

/// Writes the header record.
pub fn write_header(input: &Input) -> (res: Vec<String>)
    ensures
        res.deep_view() == header_record(*input),
{
    let n = &input.field_names;
    let chosen = chosen_vec(n);
    let mut names: Vec<String> = Vec::new();
    push_value(&mut names, header_or_empty(&n.id));
    push_value(&mut names, header_or_empty(&n.created_at));
    push_value(&mut names, header_or_empty(&n.first_name));
    push_value(&mut names, header_or_empty(&n.last_name));
    push_value(&mut names, header_or_empty(&n.full_name));
    push_value(&mut names, header_or_empty(&n.kana_first_name));
    push_value(&mut names, header_or_empty(&n.kana_last_name));
    push_value(&mut names, header_or_empty(&n.kana_full_name));
    push_value(&mut names, header_or_empty(&n.email));
    push_value(&mut names, header_or_empty(&n.phone_number));
    push_value(&mut names, header_or_empty(&n.affiliation));
    push_value(&mut names, header_or_empty(&n.role));
    push_value(&mut names, header_or_empty(&n.category));
    assert(names.deep_view().len() == 13);
    assert(names.len() == chosen.len());
    let ghost full = header_texts(*n);
    assert forall|i: int| 0 <= i < 13 && #[trigger] chosen@[i] implies names.deep_view()[i] == full[i] by {
    }
    proof {
        lemma_select_agree(chosen@, names.deep_view(), full);
    }
    select_values(&chosen, names)
}

/// Joins a first and a last name into a full name.
pub fn full_name_text(first: &String, last: &String) -> (res: String)
    ensures
        res@ == full_name(first@, last@),
{
    let mut full = last.clone();
    proof {
        reveal_strlit(" ");
    }
    full.append(" ");
    full.append(first.as_str());
    full
}

/// Renders a phone number as it is exported.
pub fn phone_number_text(phone: &String) -> (res: String)
    ensures
        res@ == phone_field(phone@),
{
    let p = phone.as_str();
    let n = p.unicode_len();
    proof {
        reveal_strlit("=\"");
        reveal_strlit("0");
        reveal_strlit("\"");
    }
    let mut raw = String::from_str("=\"");
    if n >= 3 && p.get_char(0) == '+' && p.get_char(1) == '8' && p.get_char(2) == '1' {
        raw.append("0");
        raw.append(p.substring_char(3, n));
        raw.append("\"");
        assert(p@.subrange(3, n as int) =~= p@.skip(3));
        assert(raw@ =~= phone_field(phone@));
    } else {
        raw.append(p);
        raw.append("\"");
        assert(raw@ =~= phone_field(phone@));
    }
    raw
}

fn role_name_text(names: &InputRoleNames, role: UserRole) -> (res: String)
    ensures
        res@ == role_name(*names, role),
{
    match role {
        UserRole::Administrator => names.administrator.clone(),
        UserRole::CommitteeOperator => names.committee_operator.clone(),
        UserRole::Committee => names.committee.clone(),
        UserRole::General => names.general.clone(),
    }
}

fn category_name_text(names: &InputCategoryNames, category: UserCategory) -> (res: String)
    ensures
        res@ == category_name(*names, category),
{
    match category {
        UserCategory::UndergraduateStudent => names.undergraduate_student.clone(),
        UserCategory::GraduateStudent => names.graduate_student.clone(),
        UserCategory::AcademicStaff => names.academic_staff.clone(),
    }
}

/// Writes the record of a user, given the rendering of its creation time
/// (used only where that column is chosen).
pub fn write_record_with_time(input: &Input, user: &UserRecord, created_at: String) -> (res: Vec<String>)
    ensures
        res.deep_view() == select(chosen_columns(input.field_names), user_columns_with_time(*input, *user, created_at@)),
{
    let n = &input.field_names;
    let chosen = chosen_vec(n);
    let mut values: Vec<String> = Vec::new();
    push_value(&mut values, user.id.clone());
    push_value(&mut values, created_at);
    push_value(&mut values, user.first_name.clone());
    push_value(&mut values, user.last_name.clone());
    push_value(&mut values, full_name_text(&user.first_name, &user.last_name));
    push_value(&mut values, user.kana_first_name.clone());
    push_value(&mut values, user.kana_last_name.clone());
    push_value(&mut values, full_name_text(&user.kana_first_name, &user.kana_last_name));
    push_value(&mut values, user.email.clone());
    push_value(&mut values, phone_number_text(&user.phone_number));
    push_value(&mut values, user.affiliation.clone());
    push_value(&mut values, role_name_text(&input.role_names, user.role));
    push_value(&mut values, category_name_text(&input.category_names, user.category));
    assert(values.deep_view().len() == 13);
    assert(values.len() == chosen.len());
    let ghost full = user_columns_with_time(*input, *user, created_at@);
    assert forall|i: int| 0 <= i < 13 && #[trigger] chosen@[i] implies values.deep_view()[i] == full[i] by {
    }
    proof {
        lemma_select_agree(chosen@, values.deep_view(), full);
    }
    select_values(&chosen, values)
}

/// Writes the record of a user. It gives `None` only where the creation time
/// is exported and the time library refuses to render it.
pub fn write_record(input: &Input, user: &UserRecord) -> (res: Option<Vec<String>>)
    ensures
        res matches Some(r) ==> r.deep_view() == user_record(*input, *user),
        input.field_names.created_at is None || renderable_time(user.created_at as int) ==> res is Some,
{
    let n = &input.field_names;
    let created_at = if n.created_at.is_some() {
        match format_date_time(user.created_at, JST_OFFSET_SECONDS) {
            Some(s) => s,
            None => return None,
        }
    } else {
        String::new()
    };
    let ghost text = created_at@;
    let res = write_record_with_time(input, user, created_at);
    proof {
        let chosen = chosen_columns(input.field_names);
        let with_text = user_columns_with_time(*input, *user, text);
        let cols = user_columns(*input, *user);
        assert forall|i: int| 0 <= i < chosen.len() && #[trigger] chosen[i] implies with_text[i] == cols[i] by {
        }
        lemma_select_agree(chosen, with_text, cols);
    }
    Some(res)
}

/// Exports every user as a CSV table, given whether the logged-in user holds
/// the permission to read all users and the users the repository listed.
pub fn run(input: &Input, may_read_all_users: bool, users: Vec<Found<UserRecord>>) -> (res: UseCaseResult<Vec<u8>, Error>)
    ensures
        !may_read_all_users ==> outcome(res) == Outcome::<Vec<u8>, Error>::Refused(Error::InsufficientPermissions),
        may_read_all_users && !all_visible(users@) ==> outcome(res) == Outcome::<Vec<u8>, Error>::Failed,
        res matches Ok(bytes) ==> may_read_all_users && all_visible(users@)
            && bytes@ == encode_utf8(encode_table(users_table(*input, entities(users@)))),
        may_read_all_users && all_visible(users@)
            && (input.field_names.created_at is None
                || forall|i: int| 0 <= i < users@.len() ==> renderable_time(#[trigger] users@[i].entity.created_at as int))
            ==> res is Ok,
{
    if !may_read_all_users {
        return Err(UseCaseError::UseCase(Error::InsufficientPermissions));
    }
    if !check_all_visible(&users) {
        return Err(UseCaseError::Internal(crate::error::internal_error("Condition failed: every user is visible")));
    }
    let mut table: Vec<Vec<String>> = Vec::new();
    table.push(write_header(input));
    let mut i: usize = 0;
    while i < users.len()
        invariant
            i <= users.len(),
            may_read_all_users,
            all_visible(users@),
            table.deep_view() =~= users_table(*input, entities(users@).take(i as int)),
        decreases users.len() - i,
    {
        let record = match write_record(input, &users[i].entity) {
            Some(r) => r,
            None => return Err(UseCaseError::Internal(crate::error::internal_error("Failed to render a date"))),
        };
        let ghost prev = table.deep_view();
        table.push(record);
        assert(entities(users@).take(i + 1) =~= entities(users@).take(i as int).push(users@[i as int].entity));
        assert(table.deep_view() =~= prev.push(record.deep_view()));
        i = i + 1;
    }
    assert(entities(users@).take(i as int) =~= entities(users@));
    proof {
        lemma_users_table_uniform(*input, entities(users@));
    }
    match write_table(&table) {
        Ok(bytes) => Ok(bytes),
        Err(message) => Err(UseCaseError::Internal(crate::error::InternalError { message })),
    }
}

} // verus!
