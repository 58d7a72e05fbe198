use vstd::prelude::*;

use crate::domain::{
    CheckboxesErrorKind, FileTypesErrorKind, FormItemsErrorKind, GridColumnsErrorKind,
    GridRowsErrorKind, IntegerContentErrorKind, RadioButtonsErrorKind, TextContentErrorKind,
};
use crate::model::{CheckboxId, FormItemId, GridRadioColumnId, GridRadioRowId, RadioId};

verus! {

/// Why a form item is refused.
#[derive(Clone, Copy, Debug, PartialEq, Eq, Structural)]
pub enum FormItemError {
    InvalidName,
    InvalidDescription,
    InvalidCondition,
    InvalidTextMaxLength,
    InvalidTextMinLength,
    InvalidTextPlaceholder,
    InconsistentTextLengthLimits,
    InvalidIntegerMaxLimit,
    InvalidIntegerMinLimit,
    InvalidIntegerUnit,
    OutOfLimitsIntegerPlaceholder,
    InconsistentIntegerLimits,
    InvalidCheckboxMinChecks,
    InvalidCheckboxMaxChecks,
    InvalidCheckboxLabel,
    InconsistentCheckLimits,
    NoCheckboxes,
    TooManyCheckboxes,
    InvalidRadioLabel,
    NoRadioButtons,
    TooManyRadioButtons,
    InvalidGridRadioRowLabel,
    InvalidGridRadioColumnLabel,
    NoGridRadioRows,
    TooManyGridRadioRows,
    NoGridRadioColumns,
    TooFewGridRadioColumnsWhenExclusiveAndRequired,
    TooManyGridRadioColumns,
    TooManyFileTypes,
    NoFileTypes,
    DuplicatedFileType,
    DuplicatedCheckboxId(CheckboxId),
    DuplicatedRadioId(RadioId),
    DuplicatedGridRadioRowId(GridRadioRowId),
    DuplicatedGridRadioColumnId(GridRadioColumnId),
    MismatchedConditionType(FormItemId),
    UnknownItemIdInConditions(FormItemId),
    UnknownCheckboxIdInConditions(CheckboxId),
    UnknownRadioIdInConditions(RadioId),
    UnknownGridRadioColumnIdInConditions(GridRadioColumnId),
}

impl FormItemError {
    /// The error for refused text item content.
    pub open spec fn from_text_content_error_of(kind: TextContentErrorKind) -> FormItemError {
        match kind {
            TextContentErrorKind::InconsistentLengthLimits => FormItemError::InconsistentTextLengthLimits,
        }
    }

    pub fn from_text_content_error(kind: TextContentErrorKind) -> (res: FormItemError)
        ensures
            res == Self::from_text_content_error_of(kind),
    {
        match kind {
            TextContentErrorKind::InconsistentLengthLimits => FormItemError::InconsistentTextLengthLimits,
        }
    }

    /// The error for refused integer item content; a placeholder out of the limits, too big or too small alike.
    pub open spec fn from_integer_content_error_of(kind: IntegerContentErrorKind) -> FormItemError {
        match kind {
            IntegerContentErrorKind::TooBigPlaceholder => FormItemError::OutOfLimitsIntegerPlaceholder,
            IntegerContentErrorKind::TooSmallPlaceholder => FormItemError::OutOfLimitsIntegerPlaceholder,
            IntegerContentErrorKind::InconsistentLimits => FormItemError::InconsistentIntegerLimits,
        }
    }

    pub fn from_integer_content_error(kind: IntegerContentErrorKind) -> (res: FormItemError)
        ensures
            res == Self::from_integer_content_error_of(kind),
    {
        match kind {
            IntegerContentErrorKind::TooBigPlaceholder => FormItemError::OutOfLimitsIntegerPlaceholder,
            IntegerContentErrorKind::TooSmallPlaceholder => FormItemError::OutOfLimitsIntegerPlaceholder,
            IntegerContentErrorKind::InconsistentLimits => FormItemError::InconsistentIntegerLimits,
        }
    }

    /// The error for refused checkboxes.
    pub open spec fn from_checkboxes_error_of(kind: CheckboxesErrorKind) -> FormItemError {
        match kind {
            CheckboxesErrorKind::Empty => FormItemError::NoCheckboxes,
            CheckboxesErrorKind::TooLong => FormItemError::TooManyCheckboxes,
            CheckboxesErrorKind::DuplicatedCheckboxId { id } => FormItemError::DuplicatedCheckboxId(id),
        }
    }

    pub fn from_checkboxes_error(kind: CheckboxesErrorKind) -> (res: FormItemError)
        ensures
            res == Self::from_checkboxes_error_of(kind),
    {
        match kind {
            CheckboxesErrorKind::Empty => FormItemError::NoCheckboxes,
            CheckboxesErrorKind::TooLong => FormItemError::TooManyCheckboxes,
            CheckboxesErrorKind::DuplicatedCheckboxId { id } => FormItemError::DuplicatedCheckboxId(id),
        }
    }

    /// The error for refused radio buttons.
    pub open spec fn from_buttons_error_of(kind: RadioButtonsErrorKind) -> FormItemError {
        match kind {
            RadioButtonsErrorKind::Empty => FormItemError::NoRadioButtons,
            RadioButtonsErrorKind::TooLong => FormItemError::TooManyRadioButtons,
            RadioButtonsErrorKind::DuplicatedRadioId { id } => FormItemError::DuplicatedRadioId(id),
        }
    }

    pub fn from_buttons_error(kind: RadioButtonsErrorKind) -> (res: FormItemError)
        ensures
            res == Self::from_buttons_error_of(kind),
    {
        match kind {
            RadioButtonsErrorKind::Empty => FormItemError::NoRadioButtons,
            RadioButtonsErrorKind::TooLong => FormItemError::TooManyRadioButtons,
            RadioButtonsErrorKind::DuplicatedRadioId { id } => FormItemError::DuplicatedRadioId(id),
        }
    }

    /// The error for refused grid rows.
    pub open spec fn from_grid_rows_error_of(kind: GridRowsErrorKind) -> FormItemError {
        match kind {
            GridRowsErrorKind::Empty => FormItemError::NoGridRadioRows,
            GridRowsErrorKind::TooLong => FormItemError::TooManyGridRadioRows,
            GridRowsErrorKind::DuplicatedRowId { id } => FormItemError::DuplicatedGridRadioRowId(id),
        }
    }

    pub fn from_grid_rows_error(kind: GridRowsErrorKind) -> (res: FormItemError)
        ensures
            res == Self::from_grid_rows_error_of(kind),
    {
        match kind {
            GridRowsErrorKind::Empty => FormItemError::NoGridRadioRows,
            GridRowsErrorKind::TooLong => FormItemError::TooManyGridRadioRows,
            GridRowsErrorKind::DuplicatedRowId { id } => FormItemError::DuplicatedGridRadioRowId(id),
        }
    }

    /// The error for refused grid columns.
    pub open spec fn from_grid_columns_error_of(kind: GridColumnsErrorKind) -> FormItemError {
        match kind {
            GridColumnsErrorKind::Empty => FormItemError::NoGridRadioColumns,
            GridColumnsErrorKind::TooLong => FormItemError::TooManyGridRadioColumns,
            GridColumnsErrorKind::DuplicatedColumnId { id } => FormItemError::DuplicatedGridRadioColumnId(id),
        }
    }

    pub fn from_grid_columns_error(kind: GridColumnsErrorKind) -> (res: FormItemError)
        ensures
            res == Self::from_grid_columns_error_of(kind),
    {
        match kind {
            GridColumnsErrorKind::Empty => FormItemError::NoGridRadioColumns,
            GridColumnsErrorKind::TooLong => FormItemError::TooManyGridRadioColumns,
            GridColumnsErrorKind::DuplicatedColumnId { id } => FormItemError::DuplicatedGridRadioColumnId(id),
        }
    }

    /// The error for refused file types.
    pub open spec fn from_file_types_error_of(kind: FileTypesErrorKind) -> FormItemError {
        match kind {
            FileTypesErrorKind::TooLong => FormItemError::TooManyFileTypes,
            FileTypesErrorKind::Empty => FormItemError::NoFileTypes,
            FileTypesErrorKind::Duplicated => FormItemError::DuplicatedFileType,
        }
    }

    pub fn from_file_types_error(kind: FileTypesErrorKind) -> (res: FormItemError)
        ensures
            res == Self::from_file_types_error_of(kind),
    {
        match kind {
            FileTypesErrorKind::TooLong => FormItemError::TooManyFileTypes,
            FileTypesErrorKind::Empty => FormItemError::NoFileTypes,
            FileTypesErrorKind::Duplicated => FormItemError::DuplicatedFileType,
        }
    }
}

/// What the entity layer reported on each part of a form item body.
#[derive(Debug)]
pub enum FormItemBodyChecks {
    Text {
        max_length: bool,
        min_length: bool,
        placeholder: bool,
        content: Result<(), TextContentErrorKind>,
    },
    Integer {
        max: bool,
        min: bool,
        unit: bool,
        content: Result<(), IntegerContentErrorKind>,
    },
    Checkbox {
        labels: Vec<bool>,
        boxes: Result<(), CheckboxesErrorKind>,
        min_checks: bool,
        max_checks: bool,
        consistent_limits: bool,
    },
    Radio {
        labels: Vec<bool>,
        buttons: Result<(), RadioButtonsErrorKind>,
    },
    GridRadio {
        row_labels: Vec<bool>,
        rows: Result<(), GridRowsErrorKind>,
        column_labels: Vec<bool>,
        columns: Result<(), GridColumnsErrorKind>,
        enough_columns: bool,
    },
    File {
        types: Result<(), FileTypesErrorKind>,
    },
}

/// A box of a checkbox item.
#[derive(Debug, Clone)]
pub struct Checkbox {
    pub id: CheckboxId,
    pub label: String,
}

/// A button of a radio item.
#[derive(Debug, Clone)]
pub struct Radio {
    pub id: RadioId,
    pub label: String,
}

/// A row of a grid radio item.
#[derive(Debug, Clone)]
pub struct GridRadioRow {
    pub id: GridRadioRowId,
    pub label: String,
}

/// A column of a grid radio item.
#[derive(Debug, Clone)]
pub struct GridRadioColumn {
    pub id: GridRadioColumnId,
    pub label: String,
}

/// A condition on the answer to another item, under which an item is shown.
#[derive(Debug, Clone, Copy, PartialEq, Eq, Structural)]
pub enum FormItemCondition {
    Checkbox { item_id: FormItemId, checkbox_id: CheckboxId, expected: bool },
    RadioSelected { item_id: FormItemId, radio_id: RadioId },
    GridRadioSelected { item_id: FormItemId, column_id: GridRadioColumnId },
}

/// The body of a form item as given.
#[derive(Debug, Clone)]
pub enum FormItemBody {
    Text {
        accept_multiple_lines: bool,
        is_required: bool,
        max_length: Option<u64>,
        min_length: Option<u64>,
        placeholder: String,
    },
    Integer {
        is_required: bool,
        max: Option<u64>,
        min: Option<u64>,
        placeholder: u64,
        unit: Option<String>,
    },
    Checkbox {
        boxes: Vec<Checkbox>,
        min_checks: Option<u64>,
        max_checks: Option<u64>,
    },
    Radio {
        buttons: Vec<Radio>,
        is_required: bool,
    },
    GridRadio {
        rows: Vec<GridRadioRow>,
        columns: Vec<GridRadioColumn>,
        exclusive_column: bool,
        /// Whether every row must be answered.
        all_rows_required: bool,
    },
    /// The accepted file types are MIME types, as text.
    File {
        types: Option<Vec<String>>,
        accept_multiple_files: bool,
        is_required: bool,
    },
}

/// A form item as given: the conditions, where there are any, are a
/// disjunction of conjunctions.
#[derive(Debug, Clone)]
pub struct FormItem {
    pub id: FormItemId,
    pub name: String,
    pub description: String,
    pub conditions: Option<Vec<Vec<FormItemCondition>>>,
    pub body: FormItemBody,
}

/// What the entity layer reported on each part of a form item: `true` where
/// it accepted the part (an absent optional part is accepted).
#[derive(Debug)]
pub struct FormItemChecks {
    pub name: bool,
    pub description: bool,
    pub conditions: bool,
    pub body: FormItemBodyChecks,
}

/// Whether every label was accepted.
pub open spec fn all_accepted(labels: Seq<bool>) -> bool {
    forall|i: int| 0 <= i < labels.len() ==> #[trigger] labels[i]
}

/// Checks that every label was accepted.
pub fn check_all_accepted(labels: &Vec<bool>) -> (res: bool)
    ensures
        res == all_accepted(labels@),
{
    let mut i: usize = 0;
    while i < labels.len()
        invariant
            i <= labels.len(),
            forall|j: int| 0 <= j < i ==> #[trigger] labels@[j],
        decreases labels.len() - i,
    {
        if !labels[i] {
            return false;
        }
        i = i + 1;
    }
    true
}

/// The first refusal among the checks of a form item body, in the order in
/// which the parts are converted.
pub open spec fn body_error(body: FormItemBodyChecks) -> Option<FormItemError> {
    match body {
        FormItemBodyChecks::Text { max_length, min_length, placeholder, content } =>
            if !max_length { Some(FormItemError::InvalidTextMaxLength) }
            else if !min_length { Some(FormItemError::InvalidTextMinLength) }
            else if !placeholder { Some(FormItemError::InvalidTextPlaceholder) }
            else { match content { Err(k) => Some(FormItemError::from_text_content_error_of(k)), Ok(_) => None } },
        FormItemBodyChecks::Integer { max, min, unit, content } =>
            if !max { Some(FormItemError::InvalidIntegerMaxLimit) }
            else if !min { Some(FormItemError::InvalidIntegerMinLimit) }
            else if !unit { Some(FormItemError::InvalidIntegerUnit) }
            else { match content { Err(k) => Some(FormItemError::from_integer_content_error_of(k)), Ok(_) => None } },
        FormItemBodyChecks::Checkbox { labels, boxes, min_checks, max_checks, consistent_limits } =>
            if !all_accepted(labels@) { Some(FormItemError::InvalidCheckboxLabel) }
            else { match boxes {
                Err(k) => Some(FormItemError::from_checkboxes_error_of(k)),
                Ok(_) =>
                    if !min_checks { Some(FormItemError::InvalidCheckboxMinChecks) }
                    else if !max_checks { Some(FormItemError::InvalidCheckboxMaxChecks) }
                    else if !consistent_limits { Some(FormItemError::InconsistentCheckLimits) }
                    else { None },
            } },
        FormItemBodyChecks::Radio { labels, buttons } =>
            if !all_accepted(labels@) { Some(FormItemError::InvalidRadioLabel) }
            else { match buttons { Err(k) => Some(FormItemError::from_buttons_error_of(k)), Ok(_) => None } },
        FormItemBodyChecks::GridRadio { row_labels, rows, column_labels, columns, enough_columns } =>
            if !all_accepted(row_labels@) { Some(FormItemError::InvalidGridRadioRowLabel) }
            else { match rows {
                Err(k) => Some(FormItemError::from_grid_rows_error_of(k)),
                Ok(_) =>
                    if !all_accepted(column_labels@) { Some(FormItemError::InvalidGridRadioColumnLabel) }
                    else { match columns {
                        Err(k) => Some(FormItemError::from_grid_columns_error_of(k)),
                        Ok(_) => if !enough_columns { Some(FormItemError::TooFewGridRadioColumnsWhenExclusiveAndRequired) } else { None },
                    } },
            } },
        FormItemBodyChecks::File { types } =>
            match types { Err(k) => Some(FormItemError::from_file_types_error_of(k)), Ok(_) => None },
    }
}

/// The first refusal among the checks of a form item: name, description,
/// conditions, then the body.
pub open spec fn item_error(checks: FormItemChecks) -> Option<FormItemError> {
    if !checks.name { Some(FormItemError::InvalidName) }
    else if !checks.description { Some(FormItemError::InvalidDescription) }
    else if !checks.conditions { Some(FormItemError::InvalidCondition) }
    else { body_error(checks.body) }
}

fn to_body(body: &FormItemBodyChecks) -> (res: Result<(), FormItemError>)
    ensures
        match body_error(*body) {
            Some(e) => res == Err::<(), FormItemError>(e),
            None => res is Ok,
        },
{
    match body {
        FormItemBodyChecks::Text { max_length, min_length, placeholder, content } => {
            if !*max_length { return Err(FormItemError::InvalidTextMaxLength); }
            if !*min_length { return Err(FormItemError::InvalidTextMinLength); }
            if !*placeholder { return Err(FormItemError::InvalidTextPlaceholder); }
            match content {
                Err(k) => Err(FormItemError::from_text_content_error(*k)),
                Ok(_) => Ok(()),
            }
        },
        FormItemBodyChecks::Integer { max, min, unit, content } => {
            if !*max { return Err(FormItemError::InvalidIntegerMaxLimit); }
            if !*min { return Err(FormItemError::InvalidIntegerMinLimit); }
            if !*unit { return Err(FormItemError::InvalidIntegerUnit); }
            match content {
                Err(k) => Err(FormItemError::from_integer_content_error(*k)),
                Ok(_) => Ok(()),
            }
        },
        FormItemBodyChecks::Checkbox { labels, boxes, min_checks, max_checks, consistent_limits } => {
            if !check_all_accepted(labels) { return Err(FormItemError::InvalidCheckboxLabel); }
            if let Err(k) = boxes { return Err(FormItemError::from_checkboxes_error(*k)); }
            if !*min_checks { return Err(FormItemError::InvalidCheckboxMinChecks); }
            if !*max_checks { return Err(FormItemError::InvalidCheckboxMaxChecks); }
            if !*consistent_limits { return Err(FormItemError::from_checkbox_content_error()); }
            Ok(())
        },
        FormItemBodyChecks::Radio { labels, buttons } => {
            if !check_all_accepted(labels) { return Err(FormItemError::InvalidRadioLabel); }
            match buttons {
                Err(k) => Err(FormItemError::from_buttons_error(*k)),
                Ok(_) => Ok(()),
            }
        },
        FormItemBodyChecks::GridRadio { row_labels, rows, column_labels, columns, enough_columns } => {
            if !check_all_accepted(row_labels) { return Err(FormItemError::InvalidGridRadioRowLabel); }
            if let Err(k) = rows { return Err(FormItemError::from_grid_rows_error(*k)); }
            if !check_all_accepted(column_labels) { return Err(FormItemError::InvalidGridRadioColumnLabel); }
            if let Err(k) = columns { return Err(FormItemError::from_grid_columns_error(*k)); }
            if !*enough_columns { return Err(FormItemError::from_grid_radio_content_error()); }
            Ok(())
        },
        FormItemBodyChecks::File { types } => {
            match types {
                Err(k) => Err(FormItemError::from_file_types_error(*k)),
                Ok(_) => Ok(()),
            }
        },
    }
}

/// Whether the checks are those of the body: of the same kind, with one
/// label verdict for each box, button, row and column.
pub open spec fn checks_fit(body: FormItemBody, checks: FormItemBodyChecks) -> bool {
    match body {
        FormItemBody::Text { .. } => checks is Text,
        FormItemBody::Integer { .. } => checks is Integer,
        FormItemBody::Checkbox { boxes, .. } => match checks {
            FormItemBodyChecks::Checkbox { labels, .. } => labels.len() == boxes.len(),
            _ => false,
        },
        FormItemBody::Radio { buttons, .. } => match checks {
            FormItemBodyChecks::Radio { labels, .. } => labels.len() == buttons.len(),
            _ => false,
        },
        FormItemBody::GridRadio { rows, columns, .. } => match checks {
            FormItemBodyChecks::GridRadio { row_labels, column_labels, .. } =>
                row_labels.len() == rows.len() && column_labels.len() == columns.len(),
            _ => false,
        },
        FormItemBody::File { .. } => checks is File,
    }
}

/// Converts a form item, given what the entity layer reported on each of
/// its parts (checks made of this item's body): the first refusal in conversion order, or the item itself,
/// with its identifier, name, description, conditions, and body (its kind,
/// flags, limits, and boxes, buttons, rows and columns in their order)
/// unchanged.
pub fn to_form_item(item: FormItem, checks: &FormItemChecks) -> (res: Result<FormItem, FormItemError>)
    requires
        checks_fit(item.body, checks.body),
    ensures
        match item_error(*checks) {
            Some(e) => res == Err::<FormItem, FormItemError>(e),
            None => res == Ok::<FormItem, FormItemError>(item),
        },
{
    if !checks.name {
        return Err(FormItemError::InvalidName);
    }
    if !checks.description {
        return Err(FormItemError::InvalidDescription);
    }
    if !checks.conditions {
        return Err(FormItemError::InvalidCondition);
    }
    match to_body(&checks.body) {
        Ok(()) => Ok(item),
        Err(e) => Err(e),
    }
}

impl FormItemError {
    /// Limits on the number of checks that contradict each other.
    pub fn from_checkbox_content_error() -> (res: Self)
        ensures
            res is InconsistentCheckLimits,
    {
        FormItemError::InconsistentCheckLimits
    }

    /// Too few columns for an exclusive and required grid.
    pub fn from_grid_radio_content_error() -> (res: Self)
        ensures
            res is TooFewGridRadioColumnsWhenExclusiveAndRequired,
    {
        FormItemError::TooFewGridRadioColumnsWhenExclusiveAndRequired
    }
}

/// Why a list of form items is refused.
#[derive(Clone, Copy, Debug, PartialEq, Eq, Structural)]
pub enum FormItemsError {
    NoItems,
    TooManyItems,
    DuplicatedItemId(FormItemId),
    InvalidItem(FormItemId, FormItemError),
}

impl FormItemsError {
    /// The error of an invalid item, with the item's identifier.
    pub fn from_item_error(item_id: FormItemId, err: FormItemError) -> (res: Self)
        ensures
            res == FormItemsError::InvalidItem(item_id, err),
    {
        FormItemsError::InvalidItem(item_id, err)
    }

    /// The error for a refused list of items; a refusal caused by one item's
    /// conditions is reported as that item being invalid.
    pub open spec fn from_items_error_of(kind: FormItemsErrorKind) -> FormItemsError {
        match kind {
            FormItemsErrorKind::Empty => FormItemsError::NoItems,
            FormItemsErrorKind::TooLong => FormItemsError::TooManyItems,
            FormItemsErrorKind::DuplicatedFormItemId(id) => FormItemsError::DuplicatedItemId(id),
            FormItemsErrorKind::MismatchedConditionType { provenance, id } => FormItemsError::InvalidItem(provenance, FormItemError::MismatchedConditionType(id)),
            FormItemsErrorKind::UnknownFormItemIdInConditions { provenance, id } => FormItemsError::InvalidItem(provenance, FormItemError::UnknownItemIdInConditions(id)),
            FormItemsErrorKind::UnknownCheckboxIdInConditions { provenance, id } => FormItemsError::InvalidItem(provenance, FormItemError::UnknownCheckboxIdInConditions(id)),
            FormItemsErrorKind::UnknownRadioIdInConditions { provenance, id } => FormItemsError::InvalidItem(provenance, FormItemError::UnknownRadioIdInConditions(id)),
            FormItemsErrorKind::UnknownGridRadioColumnIdInConditions { provenance, id } => FormItemsError::InvalidItem(provenance, FormItemError::UnknownGridRadioColumnIdInConditions(id)),
        }
    }

    pub fn from_items_error(kind: FormItemsErrorKind) -> (res: Self)
        ensures
            res == Self::from_items_error_of(kind),
    {
        match kind {
            FormItemsErrorKind::Empty => FormItemsError::NoItems,
            FormItemsErrorKind::TooLong => FormItemsError::TooManyItems,
            FormItemsErrorKind::DuplicatedFormItemId(id) => FormItemsError::DuplicatedItemId(id),
            FormItemsErrorKind::MismatchedConditionType { provenance, id } => FormItemsError::InvalidItem(provenance, FormItemError::MismatchedConditionType(id)),
            FormItemsErrorKind::UnknownFormItemIdInConditions { provenance, id } => FormItemsError::InvalidItem(provenance, FormItemError::UnknownItemIdInConditions(id)),
            FormItemsErrorKind::UnknownCheckboxIdInConditions { provenance, id } => FormItemsError::InvalidItem(provenance, FormItemError::UnknownCheckboxIdInConditions(id)),
            FormItemsErrorKind::UnknownRadioIdInConditions { provenance, id } => FormItemsError::InvalidItem(provenance, FormItemError::UnknownRadioIdInConditions(id)),
            FormItemsErrorKind::UnknownGridRadioColumnIdInConditions { provenance, id } => FormItemsError::InvalidItem(provenance, FormItemError::UnknownGridRadioColumnIdInConditions(id)),
        }
    }
}

/// A form item with what converting it gave.
pub struct ConvertedFormItem<I> {
    pub id: FormItemId,
    pub result: Result<I, FormItemError>,
}

/// The error of the first item that failed to convert.
pub open spec fn first_item_error<I>(items: Seq<ConvertedFormItem<I>>) -> Option<FormItemsError>
    decreases items.len(),
{
    if items.len() == 0 {
        None
    } else {
        match items[0].result {
            Err(e) => Some(FormItemsError::InvalidItem(items[0].id, e)),
            Ok(_) => first_item_error(items.drop_first()),
        }
    }
}

/// The converted items, where none failed.
pub open spec fn converted_items<I>(items: Seq<ConvertedFormItem<I>>) -> Seq<I> {
    items.map_values(|c: ConvertedFormItem<I>| c.result->Ok_0)
}

/// Decides on the items of a form: the first item that failed to convert
/// makes the list invalid with that item's error; otherwise the entity
/// layer's verdict on the list as a whole decides.
pub fn to_form_items<I>(items: Vec<ConvertedFormItem<I>>, list_check: Result<(), FormItemsErrorKind>) -> (res: Result<Vec<I>, FormItemsError>)
    ensures
        match first_item_error(items@) {
            Some(e) => res == Err::<Vec<I>, FormItemsError>(e),
            None => match list_check {
                Err(k) => res == Err::<Vec<I>, FormItemsError>(FormItemsError::from_items_error_of(k)),
                Ok(_) => res matches Ok(v) && v@ == converted_items(items@),
            },
        },
{
    let ghost all = items@;
    let mut rest = items;
    let mut out: Vec<I> = Vec::new();
    let mut i: usize = 0;
    assert(all.skip(0) =~= all);
    while rest.len() > 0
        invariant
            all == items@,
            i + rest.len() == all.len(),
            all.len() == items.len(),
            rest@ =~= all.skip(i as int),
            first_item_error(all) == first_item_error(all.skip(i as int)),
            out@ =~= converted_items(all.take(i as int)),
        decreases rest.len(),
    {
        let ghost prev = rest@;
        assert(all.skip(i as int).drop_first() =~= all.skip(i + 1));
        let c = rest.remove(0);
        assert(c == all[i as int]);
        match c.result {
            Err(e) => {
                return Err(FormItemsError::from_item_error(c.id, e));
            },
            Ok(v) => {
                out.push(v);
            },
        }
        assert(all.take(i + 1) =~= all.take(i as int).push(all[i as int]));
        i = i + 1;
    }
    assert(all.skip(i as int) =~= Seq::<ConvertedFormItem<I>>::empty());
    assert(all.take(i as int) =~= all);
    match list_check {
        Err(k) => Err(FormItemsError::from_items_error(k)),
        Ok(_) => Ok(out),
    }
}

/// Each refusal of a part of a form item is reported under its own name:
/// two different refusals of one part are never reported alike (but for an
/// integer placeholder beyond either limit, which is reported as out of the
/// limits either way), refusals of different parts are never reported alike,
/// and two different refusals of a list of items never either.
pub proof fn lemma_item_refusals_distinct(
    t1: TextContentErrorKind,
    t2: TextContentErrorKind,
    i1: IntegerContentErrorKind,
    i2: IntegerContentErrorKind,
    c1: CheckboxesErrorKind,
    c2: CheckboxesErrorKind,
    r1: RadioButtonsErrorKind,
    r2: RadioButtonsErrorKind,
    g1: GridRowsErrorKind,
    g2: GridRowsErrorKind,
    h1: GridColumnsErrorKind,
    h2: GridColumnsErrorKind,
    f1: FileTypesErrorKind,
    f2: FileTypesErrorKind,
    l1: FormItemsErrorKind,
    l2: FormItemsErrorKind,
)
    ensures
        FormItemError::from_text_content_error_of(t1) == FormItemError::from_text_content_error_of(t2) ==> t1 == t2,
        FormItemError::from_integer_content_error_of(i1) == FormItemError::from_integer_content_error_of(i2)
            <==> (i1 == i2 || (!(i1 is InconsistentLimits) && !(i2 is InconsistentLimits))),
        FormItemError::from_checkboxes_error_of(c1) == FormItemError::from_checkboxes_error_of(c2) ==> c1 == c2,
        FormItemError::from_buttons_error_of(r1) == FormItemError::from_buttons_error_of(r2) ==> r1 == r2,
        FormItemError::from_grid_rows_error_of(g1) == FormItemError::from_grid_rows_error_of(g2) ==> g1 == g2,
        FormItemError::from_grid_columns_error_of(h1) == FormItemError::from_grid_columns_error_of(h2) ==> h1 == h2,
        FormItemError::from_file_types_error_of(f1) == FormItemError::from_file_types_error_of(f2) ==> f1 == f2,
        FormItemsError::from_items_error_of(l1) == FormItemsError::from_items_error_of(l2) ==> l1 == l2,
        FormItemError::from_checkboxes_error_of(c1) != FormItemError::from_buttons_error_of(r1),
        FormItemError::from_checkboxes_error_of(c1) != FormItemError::from_grid_rows_error_of(g1),
        FormItemError::from_checkboxes_error_of(c1) != FormItemError::from_grid_columns_error_of(h1),
        FormItemError::from_buttons_error_of(r1) != FormItemError::from_grid_rows_error_of(g1),
        FormItemError::from_buttons_error_of(r1) != FormItemError::from_grid_columns_error_of(h1),
        FormItemError::from_grid_rows_error_of(g1) != FormItemError::from_grid_columns_error_of(h1),
        FormItemError::from_text_content_error_of(t1) != FormItemError::from_integer_content_error_of(i1),
        FormItemError::from_file_types_error_of(f1) != FormItemError::from_checkboxes_error_of(c1),
{
}

} // verus!
