use vstd::prelude::*;

use crate::domain::{CheckAnswerErrorKind, CheckAnswerItemErrorKind};
use crate::model::{CheckboxId, FormItemId, GridRadioColumnId, GridRadioRowId, RadioId};

verus! {

/// Why a list of answer items does not satisfy the items of a form.
#[derive(Clone, Copy, Debug, PartialEq, Eq, Structural)]
pub enum CheckAnswerError {
    MismatchedItemsLength,
    MismatchedItemId { expected: FormItemId, got: FormItemId },
    InvalidAnswerItem { item_id: FormItemId, item_error: CheckAnswerItemError },
}

/// Why a single answer item does not satisfy its form item.
#[derive(Clone, Copy, Debug, PartialEq, Eq, Structural)]
pub enum CheckAnswerItemError {
    NotAnsweredWithoutCondition,
    NotAnsweredWithCondition,
    UnexpectedAnswer,
    MismatchedItemType,
    NotAnsweredText,
    TooLongText,
    TooShortText,
    NotAllowedMultipleLineText,
    NotAnsweredInteger,
    TooBigInteger,
    TooSmallInteger,
    TooManyChecks,
    TooFewChecks,
    NotAnsweredFile,
    NotAllowedMultipleFiles,
    NotAllowedFileType,
    UnknownCheckboxId { id: CheckboxId },
    NotAnsweredRadio,
    UnknownRadioId { id: RadioId },
    NotAnsweredGridRadioRows,
    MismatchedGridRadioRowsLength,
    MismatchedGridRadioRowId { expected: GridRadioRowId, got: GridRadioRowId },
    UnknownGridRadioColumnId { id: GridRadioColumnId },
    NotAllowedDuplicatedGridRadioColumn { id: GridRadioColumnId },
}

/// The item error reported for each kind of item check failure: the
/// variant of the same name, with the same identifiers.
pub open spec fn check_answer_item_error_of(kind: CheckAnswerItemErrorKind) -> CheckAnswerItemError {
    match kind {
        CheckAnswerItemErrorKind::NotAnsweredWithoutCondition => CheckAnswerItemError::NotAnsweredWithoutCondition,
        CheckAnswerItemErrorKind::NotAnsweredWithCondition => CheckAnswerItemError::NotAnsweredWithCondition,
        CheckAnswerItemErrorKind::UnexpectedAnswer => CheckAnswerItemError::UnexpectedAnswer,
        CheckAnswerItemErrorKind::MismatchedItemType => CheckAnswerItemError::MismatchedItemType,
        CheckAnswerItemErrorKind::NotAnsweredText => CheckAnswerItemError::NotAnsweredText,
        CheckAnswerItemErrorKind::TooLongText => CheckAnswerItemError::TooLongText,
        CheckAnswerItemErrorKind::TooShortText => CheckAnswerItemError::TooShortText,
        CheckAnswerItemErrorKind::NotAllowedMultipleLineText => CheckAnswerItemError::NotAllowedMultipleLineText,
        CheckAnswerItemErrorKind::NotAnsweredInteger => CheckAnswerItemError::NotAnsweredInteger,
        CheckAnswerItemErrorKind::TooBigInteger => CheckAnswerItemError::TooBigInteger,
        CheckAnswerItemErrorKind::TooSmallInteger => CheckAnswerItemError::TooSmallInteger,
        CheckAnswerItemErrorKind::TooManyChecks => CheckAnswerItemError::TooManyChecks,
        CheckAnswerItemErrorKind::TooFewChecks => CheckAnswerItemError::TooFewChecks,
        CheckAnswerItemErrorKind::NotAnsweredRadio => CheckAnswerItemError::NotAnsweredRadio,
        CheckAnswerItemErrorKind::NotAnsweredGridRadioRows => CheckAnswerItemError::NotAnsweredGridRadioRows,
        CheckAnswerItemErrorKind::NotAnsweredFile => CheckAnswerItemError::NotAnsweredFile,
        CheckAnswerItemErrorKind::NotAllowedMultipleFiles => CheckAnswerItemError::NotAllowedMultipleFiles,
        CheckAnswerItemErrorKind::NotAllowedFileType => CheckAnswerItemError::NotAllowedFileType,
        CheckAnswerItemErrorKind::MismatchedGridRadioRowsLength => CheckAnswerItemError::MismatchedGridRadioRowsLength,
        CheckAnswerItemErrorKind::UnknownCheckboxId { id } => CheckAnswerItemError::UnknownCheckboxId { id },
        CheckAnswerItemErrorKind::UnknownRadioId { id } => CheckAnswerItemError::UnknownRadioId { id },
        CheckAnswerItemErrorKind::UnknownGridRadioColumnId { id } => CheckAnswerItemError::UnknownGridRadioColumnId { id },
        CheckAnswerItemErrorKind::NotAllowedDuplicatedGridRadioColumn { id } => CheckAnswerItemError::NotAllowedDuplicatedGridRadioColumn { id },
        CheckAnswerItemErrorKind::MismatchedGridRadioRowId { expected, got } => CheckAnswerItemError::MismatchedGridRadioRowId { expected, got },
    }
}

/// The error reported for each kind of answer check failure.
pub open spec fn check_answer_error_of(kind: CheckAnswerErrorKind) -> CheckAnswerError {
    match kind {
        CheckAnswerErrorKind::MismatchedItemsLength => CheckAnswerError::MismatchedItemsLength,
        CheckAnswerErrorKind::MismatchedItemId { expected, got } => CheckAnswerError::MismatchedItemId { expected, got },
        CheckAnswerErrorKind::Item(item_id, kind) => CheckAnswerError::InvalidAnswerItem {
            item_id,
            item_error: check_answer_item_error_of(kind),
        },
    }
}

/// Reports a failed answer check.
pub fn to_check_answer_error(kind: CheckAnswerErrorKind) -> (res: CheckAnswerError)
    ensures
        res == check_answer_error_of(kind),
{
    match kind {
        CheckAnswerErrorKind::MismatchedItemsLength => CheckAnswerError::MismatchedItemsLength,
        CheckAnswerErrorKind::MismatchedItemId { expected, got } => CheckAnswerError::MismatchedItemId { expected, got },
        CheckAnswerErrorKind::Item(item_id, kind) => CheckAnswerError::InvalidAnswerItem {
            item_id,
            item_error: to_check_answer_item_error(kind),
        },
    }
}

/// Reports a failed check of a single answer item.
pub fn to_check_answer_item_error(kind: CheckAnswerItemErrorKind) -> (res: CheckAnswerItemError)
    ensures
        res == check_answer_item_error_of(kind),
{
    match kind {
        CheckAnswerItemErrorKind::NotAnsweredWithoutCondition => CheckAnswerItemError::NotAnsweredWithoutCondition,
        CheckAnswerItemErrorKind::NotAnsweredWithCondition => CheckAnswerItemError::NotAnsweredWithCondition,
        CheckAnswerItemErrorKind::UnexpectedAnswer => CheckAnswerItemError::UnexpectedAnswer,
        CheckAnswerItemErrorKind::MismatchedItemType => CheckAnswerItemError::MismatchedItemType,
        CheckAnswerItemErrorKind::NotAnsweredText => CheckAnswerItemError::NotAnsweredText,
        CheckAnswerItemErrorKind::TooLongText => CheckAnswerItemError::TooLongText,
        CheckAnswerItemErrorKind::TooShortText => CheckAnswerItemError::TooShortText,
        CheckAnswerItemErrorKind::NotAllowedMultipleLineText => CheckAnswerItemError::NotAllowedMultipleLineText,
        CheckAnswerItemErrorKind::NotAnsweredInteger => CheckAnswerItemError::NotAnsweredInteger,
        CheckAnswerItemErrorKind::TooBigInteger => CheckAnswerItemError::TooBigInteger,
        CheckAnswerItemErrorKind::TooSmallInteger => CheckAnswerItemError::TooSmallInteger,
        CheckAnswerItemErrorKind::TooManyChecks => CheckAnswerItemError::TooManyChecks,
        CheckAnswerItemErrorKind::TooFewChecks => CheckAnswerItemError::TooFewChecks,
        CheckAnswerItemErrorKind::NotAnsweredRadio => CheckAnswerItemError::NotAnsweredRadio,
        CheckAnswerItemErrorKind::NotAnsweredGridRadioRows => CheckAnswerItemError::NotAnsweredGridRadioRows,
        CheckAnswerItemErrorKind::NotAnsweredFile => CheckAnswerItemError::NotAnsweredFile,
        CheckAnswerItemErrorKind::NotAllowedMultipleFiles => CheckAnswerItemError::NotAllowedMultipleFiles,
        CheckAnswerItemErrorKind::NotAllowedFileType => CheckAnswerItemError::NotAllowedFileType,
        CheckAnswerItemErrorKind::MismatchedGridRadioRowsLength => CheckAnswerItemError::MismatchedGridRadioRowsLength,
        CheckAnswerItemErrorKind::UnknownCheckboxId { id } => CheckAnswerItemError::UnknownCheckboxId { id },
        CheckAnswerItemErrorKind::UnknownRadioId { id } => CheckAnswerItemError::UnknownRadioId { id },
        CheckAnswerItemErrorKind::UnknownGridRadioColumnId { id } => CheckAnswerItemError::UnknownGridRadioColumnId { id },
        CheckAnswerItemErrorKind::NotAllowedDuplicatedGridRadioColumn { id } => CheckAnswerItemError::NotAllowedDuplicatedGridRadioColumn { id },
        CheckAnswerItemErrorKind::MismatchedGridRadioRowId { expected, got } => CheckAnswerItemError::MismatchedGridRadioRowId { expected, got },
    }
}

/// Each failure of the answer check is reported under its own name: two
/// different failures are never reported alike, and a failure of one item
/// names that item.
pub proof fn lemma_check_failures_distinct(
    k1: CheckAnswerErrorKind,
    k2: CheckAnswerErrorKind,
    i1: CheckAnswerItemErrorKind,
    i2: CheckAnswerItemErrorKind,
    id: FormItemId,
)
    ensures
        check_answer_item_error_of(i1) == check_answer_item_error_of(i2) ==> i1 == i2,
        check_answer_error_of(k1) == check_answer_error_of(k2) ==> k1 == k2,
        check_answer_error_of(CheckAnswerErrorKind::Item(id, i1)) matches CheckAnswerError::InvalidAnswerItem { item_id, .. }
            && item_id == id,
{
}

} // verus!
