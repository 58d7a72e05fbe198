//! What the entity layer reports when it refuses a value: the kinds of its
//! errors, held as plain values so that the operations of this library can
//! decide on them.
use vstd::prelude::*;

use crate::model::{
    CheckboxId, FileSharingId, FormItemId, GridRadioColumnId, GridRadioRowId, ProjectId, RadioId,
};

verus! {

/// Why a single answer item does not satisfy its form item.
#[derive(Clone, Copy, Debug, PartialEq, Eq, Structural)]
pub enum CheckAnswerItemErrorKind {
    NotAnsweredWithoutCondition,
    NotAnsweredWithCondition,
    UnexpectedAnswer,
    MismatchedItemType,
    NotAnsweredText,
    TooLongText,
    TooShortText,
    NotAllowedMultipleLineText,
    NotAnsweredInteger,
    TooBigInteger,
    TooSmallInteger,
    TooManyChecks,
    TooFewChecks,
    NotAnsweredRadio,
    NotAnsweredGridRadioRows,
    NotAnsweredFile,
    NotAllowedMultipleFiles,
    NotAllowedFileType,
    UnknownCheckboxId { id: CheckboxId },
    UnknownRadioId { id: RadioId },
    MismatchedGridRadioRowsLength,
    MismatchedGridRadioRowId { expected: GridRadioRowId, got: GridRadioRowId },
    UnknownGridRadioColumnId { id: GridRadioColumnId },
    NotAllowedDuplicatedGridRadioColumn { id: GridRadioColumnId },
}

/// Why a list of answer items does not satisfy the items of a form.
#[derive(Clone, Copy, Debug, PartialEq, Eq, Structural)]
pub enum CheckAnswerErrorKind {
    MismatchedItemsLength,
    MismatchedItemId { expected: FormItemId, got: FormItemId },
    Item(FormItemId, CheckAnswerItemErrorKind),
}

/// Why the content of a text form item is refused.
#[derive(Clone, Copy, Debug, PartialEq, Eq, Structural)]
pub enum TextContentErrorKind {
    InconsistentLengthLimits,
}

/// Why the content of an integer form item is refused.
#[derive(Clone, Copy, Debug, PartialEq, Eq, Structural)]
pub enum IntegerContentErrorKind {
    TooBigPlaceholder,
    TooSmallPlaceholder,
    InconsistentLimits,
}

/// Why the boxes of a checkbox form item are refused.
#[derive(Clone, Copy, Debug, PartialEq, Eq, Structural)]
pub enum CheckboxesErrorKind {
    Empty,
    TooLong,
    DuplicatedCheckboxId { id: CheckboxId },
}

/// Why the buttons of a radio form item are refused.
#[derive(Clone, Copy, Debug, PartialEq, Eq, Structural)]
pub enum RadioButtonsErrorKind {
    Empty,
    TooLong,
    DuplicatedRadioId { id: RadioId },
}

/// Why the rows of a grid radio form item are refused.
#[derive(Clone, Copy, Debug, PartialEq, Eq, Structural)]
pub enum GridRowsErrorKind {
    Empty,
    TooLong,
    DuplicatedRowId { id: GridRadioRowId },
}

/// Why the columns of a grid radio form item are refused.
#[derive(Clone, Copy, Debug, PartialEq, Eq, Structural)]
pub enum GridColumnsErrorKind {
    Empty,
    TooLong,
    DuplicatedColumnId { id: GridRadioColumnId },
}

/// Why the accepted file types of a file form item are refused.
#[derive(Clone, Copy, Debug, PartialEq, Eq, Structural)]
pub enum FileTypesErrorKind {
    TooLong,
    Empty,
    Duplicated,
}

/// Why a list of form items is refused as the items of a form.
#[derive(Clone, Copy, Debug, PartialEq, Eq, Structural)]
pub enum FormItemsErrorKind {
    Empty,
    TooLong,
    DuplicatedFormItemId(FormItemId),
    MismatchedConditionType { provenance: FormItemId, id: FormItemId },
    UnknownFormItemIdInConditions { provenance: FormItemId, id: FormItemId },
    UnknownCheckboxIdInConditions { provenance: FormItemId, id: CheckboxId },
    UnknownRadioIdInConditions { provenance: FormItemId, id: RadioId },
    UnknownGridRadioColumnIdInConditions { provenance: FormItemId, id: GridRadioColumnId },
}

/// Why a set of projects is refused as the included or excluded projects of a form condition.
#[derive(Clone, Copy, Debug, PartialEq, Eq, Structural)]
pub enum ConditionProjectsErrorKind {
    TooLong,
    Duplicated(ProjectId),
}

/// Why a disjunction of conjunctions is refused as a project query.
#[derive(Clone, Copy, Debug, PartialEq, Eq, Structural)]
pub enum ProjectQueryErrorKind {
    TooBigDisjunction,
}

/// Why the checked boxes of a checkbox answer are refused.
#[derive(Clone, Copy, Debug, PartialEq, Eq, Structural)]
pub enum CheckedIdsErrorKind {
    TooLong,
    Duplicated(CheckboxId),
}

/// Why the row answers of a grid radio answer are refused.
#[derive(Clone, Copy, Debug, PartialEq, Eq, Structural)]
pub enum RowAnswersErrorKind {
    Empty,
    TooLong,
    DuplicatedRowId { id: GridRadioRowId },
}

/// Why the file sharings of a file answer are refused.
#[derive(Clone, Copy, Debug, PartialEq, Eq, Structural)]
pub enum SharingAnswersErrorKind {
    TooLong,
    Duplicated(FileSharingId),
}

/// Why a list of answer items is refused for its length.
#[derive(Clone, Copy, Debug, PartialEq, Eq, Structural)]
pub enum AnswerItemsLengthErrorKind {
    Empty,
    TooLong,
}

/// Why the files of a file distribution are refused.
#[derive(Clone, Copy, Debug, PartialEq, Eq, Structural)]
pub enum DistributionFilesErrorKind {
    Empty,
    TooLong,
    Duplicated(ProjectId),
}

/// Why a project cannot be created from a pending project.
#[derive(Clone, Copy, Debug, PartialEq, Eq, Structural)]
pub enum NewProjectErrorKind {
    TooManyProjects,
    NotAnsweredRegistrationForm,
    SameOwnerSubowner,
    AlreadyProjectOwnerSubowner,
    AlreadyProjectSubownerSubowner,
    AlreadyPendingProjectOwnerSubowner,
    OutOfCreationPeriod,
}

/// Why a string is refused as a project display id.
#[derive(Clone, Copy, Debug, PartialEq, Eq, Structural)]
pub enum DisplayIdErrorKind {
    TooLong,
    TooShort,
    ContainsDisallowedCharacter,
    StartsWithUnderscore,
}

/// Why a string is refused as an email address.
#[derive(Clone, Copy, Debug, PartialEq, Eq, Structural)]
pub enum EmailAddressErrorKind {
    NotUniversityEmailAddress,
    InvalidEmailAddress,
}

/// Why a user invitation cannot be created.
#[derive(Clone, Copy, Debug, PartialEq, Eq, Structural)]
pub enum NewUserInvitationErrorKind {
    InsufficientPermissions,
    AlreadyInvitedEmailAddress,
    AlreadySignedUpEmailAddress,
}

/// Why a project cannot answer a form.
#[derive(Clone, Copy, Debug, PartialEq, Eq, Structural)]
pub enum FormAnswerErrorKind {
    OutOfAnswerPeriod,
    AlreadyAnswered,
    NotTargeted,
    MismatchedItemsLength,
    MismatchedItemId { expected: FormItemId, got: FormItemId },
    InvalidItem { id: FormItemId, kind: CheckAnswerItemErrorKind },
}

/// Why a pending project cannot answer a registration form.
#[derive(Clone, Copy, Debug, PartialEq, Eq, Structural)]
pub enum RegistrationFormAnswerErrorKind {
    NotTargeted,
    AlreadyAnswered,
    MismatchedItemsLength,
    MismatchedItemId { expected: FormItemId, got: FormItemId },
    InvalidItem { id: FormItemId, kind: CheckAnswerItemErrorKind },
    OutOfProjectCreationPeriod,
}

/// Why a file sharing gives no access to its file.
#[derive(Clone, Copy, Debug, PartialEq, Eq, Structural)]
pub enum ToWitnessErrorKind {
    OutOfScope,
    ExpiredSharing,
    RevokedSharing,
}

/// A file that its owner may not share.
#[derive(Clone, Copy, Debug, PartialEq, Eq, Structural)]
pub struct NonSharableFileError;

/// Why a form cannot be created.
#[derive(Clone, Copy, Debug, PartialEq, Eq, Structural)]
pub enum NewFormErrorKind {
    TooEarlyPeriodStart,
    InsufficientPermissions,
}

} // verus!
