//! Answering a form on behalf of a project, with the answers checked item by item.
use vstd::prelude::*;

use crate::domain::{
    AnswerItemsLengthErrorKind, CheckAnswerErrorKind, CheckAnswerItemErrorKind, CheckedIdsErrorKind,
    NonSharableFileError, RowAnswersErrorKind, SharingAnswersErrorKind,
};
use crate::error::{outcome, verdict, Outcome, UseCaseError, UseCaseResult};
use crate::flow::{decide_keyed, keyed_internal, keyed_outcome, visible_entity, Found, Keyed};
use crate::interface::form::{check_answer_item_error_of, CheckAnswerItemError};
use crate::interface::form_answer::{
    answer_item_outcome, built_answer_item, file_answer_outcome, file_answer_store, files_internal,
    to_file_sharing_answer, unit_outcome, AnswerBodyChecks, FileAnswerLookup, FileSharingAnswer,
    FormAnswerItem, FormAnswerItemError, FormAnswerItemsError, NewSharing, ShareTarget,
};
pub use crate::interface::form_answer::{
    InputFormAnswerItem, InputFormAnswerItemBody, InputFormAnswerItemFile,
};
use crate::model::{
    CheckboxId, Creation, FileId, FileSharingId, FormAnswerId, FormId, FormItemId, GridRadioColumnId,
    GridRadioRowAnswer, GridRadioRowId, ProjectId, RadioId, UserId,
};

verus! {

#[derive(Debug, Clone)]
pub struct Input {
    pub project_id: ProjectId,
    pub form_id: FormId,
    pub items: Vec<InputFormAnswerItem>,
}

/// Why an answer item is refused.
#[derive(Debug, Clone, Copy, PartialEq, Eq, Structural)]
pub enum ItemError {
    FileNotFound,
    FileSharingNotFound,
    OutOfScopeFileSharing,
    NonSharableFile,
    TooManyFiles,
    DuplicatedFileSharingId { id: FileSharingId },
    InvalidText,
    TooManyChecks,
    NoRowAnswers,
    TooManyRowAnswers,
    DuplicatedCheckboxId { id: CheckboxId },
    DuplicatedGridRadioRowId { id: GridRadioRowId },
}

/// The item error of the same name, with the same identifiers.
pub open spec fn item_error_of(e: FormAnswerItemError) -> ItemError {
    match e {
        FormAnswerItemError::FileNotFound => ItemError::FileNotFound,
        FormAnswerItemError::FileSharingNotFound => ItemError::FileSharingNotFound,
        FormAnswerItemError::OutOfScopeFileSharing => ItemError::OutOfScopeFileSharing,
        FormAnswerItemError::NonSharableFile => ItemError::NonSharableFile,
        FormAnswerItemError::TooManyFiles => ItemError::TooManyFiles,
        FormAnswerItemError::DuplicatedFileSharingId { id } => ItemError::DuplicatedFileSharingId { id },
        FormAnswerItemError::InvalidText => ItemError::InvalidText,
        FormAnswerItemError::TooManyChecks => ItemError::TooManyChecks,
        FormAnswerItemError::NoRowAnswers => ItemError::NoRowAnswers,
        FormAnswerItemError::TooManyRowAnswers => ItemError::TooManyRowAnswers,
        FormAnswerItemError::DuplicatedCheckboxId { id } => ItemError::DuplicatedCheckboxId { id },
        FormAnswerItemError::DuplicatedGridRadioRowId { id } => ItemError::DuplicatedGridRadioRowId { id },
    }
}

fn to_item_error(e: FormAnswerItemError) -> (res: ItemError)
    ensures
        res == item_error_of(e),
{
    match e {
        FormAnswerItemError::FileNotFound => ItemError::FileNotFound,
        FormAnswerItemError::FileSharingNotFound => ItemError::FileSharingNotFound,
        FormAnswerItemError::OutOfScopeFileSharing => ItemError::OutOfScopeFileSharing,
        FormAnswerItemError::NonSharableFile => ItemError::NonSharableFile,
        FormAnswerItemError::TooManyFiles => ItemError::TooManyFiles,
        FormAnswerItemError::DuplicatedFileSharingId { id } => ItemError::DuplicatedFileSharingId { id },
        FormAnswerItemError::InvalidText => ItemError::InvalidText,
        FormAnswerItemError::TooManyChecks => ItemError::TooManyChecks,
        FormAnswerItemError::NoRowAnswers => ItemError::NoRowAnswers,
        FormAnswerItemError::TooManyRowAnswers => ItemError::TooManyRowAnswers,
        FormAnswerItemError::DuplicatedCheckboxId { id } => ItemError::DuplicatedCheckboxId { id },
        FormAnswerItemError::DuplicatedGridRadioRowId { id } => ItemError::DuplicatedGridRadioRowId { id },
    }
}

impl ItemError {
    pub fn from_checks_error(kind: CheckedIdsErrorKind) -> (res: Self)
        ensures
            res == item_error_of(FormAnswerItemError::checks_error_of(kind)),
    {
        match kind {
            CheckedIdsErrorKind::TooLong => ItemError::TooManyChecks,
            CheckedIdsErrorKind::Duplicated(id) => ItemError::DuplicatedCheckboxId { id },
        }
    }

    pub fn from_row_answers_error(kind: RowAnswersErrorKind) -> (res: Self)
        ensures
            res == item_error_of(FormAnswerItemError::row_answers_error_of(kind)),
    {
        match kind {
            RowAnswersErrorKind::Empty => ItemError::NoRowAnswers,
            RowAnswersErrorKind::TooLong => ItemError::TooManyRowAnswers,
            RowAnswersErrorKind::DuplicatedRowId { id } => ItemError::DuplicatedGridRadioRowId { id },
        }
    }

    pub fn from_share_error(err: NonSharableFileError) -> (res: Self)
        ensures
            res == ItemError::NonSharableFile,
    {
        ItemError::NonSharableFile
    }

    pub fn from_sharing_answers_error(kind: SharingAnswersErrorKind) -> (res: Self)
        ensures
            res == item_error_of(FormAnswerItemError::sharing_answers_error_of(kind)),
    {
        match kind {
            SharingAnswersErrorKind::TooLong => ItemError::TooManyFiles,
            SharingAnswersErrorKind::Duplicated(id) => ItemError::DuplicatedFileSharingId { id },
        }
    }
}

/// Why an answer does not satisfy a form item.
#[derive(Debug, Clone, Copy, PartialEq, Eq, Structural)]
pub enum AnswerError {
    NotAnsweredWithoutCondition,
    NotAnsweredWithCondition,
    UnexpectedAnswer,
    MismatchedItemType,
    NotAnsweredText,
    TooLongText,
    TooShortText,
    NotAllowedMultipleLineText,
    NotAnsweredInteger,
    TooBigInteger,
    TooSmallInteger,
    TooManyChecks,
    TooFewChecks,
    NotAnsweredFile,
    NotAllowedMultipleFiles,
    NotAllowedFileType,
    UnknownCheckboxId { id: CheckboxId },
    NotAnsweredRadio,
    UnknownRadioId { id: RadioId },
    NotAnsweredGridRadioRows,
    MismatchedGridRadioRowsLength,
    MismatchedGridRadioRowId { expected: GridRadioRowId, got: GridRadioRowId },
    UnknownGridRadioColumnId { id: GridRadioColumnId },
    NotAllowedDuplicatedGridRadioColumn { id: GridRadioColumnId },
}

/// The answer error of the same name as an item check error, with the same identifiers.
pub open spec fn answer_error_from_item_error(e: CheckAnswerItemError) -> AnswerError {
    match e {
        CheckAnswerItemError::NotAnsweredWithoutCondition => AnswerError::NotAnsweredWithoutCondition,
        CheckAnswerItemError::NotAnsweredWithCondition => AnswerError::NotAnsweredWithCondition,
        CheckAnswerItemError::UnexpectedAnswer => AnswerError::UnexpectedAnswer,
        CheckAnswerItemError::MismatchedItemType => AnswerError::MismatchedItemType,
        CheckAnswerItemError::NotAnsweredText => AnswerError::NotAnsweredText,
        CheckAnswerItemError::TooLongText => AnswerError::TooLongText,
        CheckAnswerItemError::TooShortText => AnswerError::TooShortText,
        CheckAnswerItemError::NotAllowedMultipleLineText => AnswerError::NotAllowedMultipleLineText,
        CheckAnswerItemError::NotAnsweredInteger => AnswerError::NotAnsweredInteger,
        CheckAnswerItemError::TooBigInteger => AnswerError::TooBigInteger,
        CheckAnswerItemError::TooSmallInteger => AnswerError::TooSmallInteger,
        CheckAnswerItemError::TooManyChecks => AnswerError::TooManyChecks,
        CheckAnswerItemError::TooFewChecks => AnswerError::TooFewChecks,
        CheckAnswerItemError::NotAnsweredRadio => AnswerError::NotAnsweredRadio,
        CheckAnswerItemError::NotAnsweredGridRadioRows => AnswerError::NotAnsweredGridRadioRows,
        CheckAnswerItemError::NotAnsweredFile => AnswerError::NotAnsweredFile,
        CheckAnswerItemError::NotAllowedMultipleFiles => AnswerError::NotAllowedMultipleFiles,
        CheckAnswerItemError::NotAllowedFileType => AnswerError::NotAllowedFileType,
        CheckAnswerItemError::MismatchedGridRadioRowsLength => AnswerError::MismatchedGridRadioRowsLength,
        CheckAnswerItemError::UnknownCheckboxId { id } => AnswerError::UnknownCheckboxId { id },
        CheckAnswerItemError::UnknownRadioId { id } => AnswerError::UnknownRadioId { id },
        CheckAnswerItemError::UnknownGridRadioColumnId { id } => AnswerError::UnknownGridRadioColumnId { id },
        CheckAnswerItemError::NotAllowedDuplicatedGridRadioColumn { id } => AnswerError::NotAllowedDuplicatedGridRadioColumn { id },
        CheckAnswerItemError::MismatchedGridRadioRowId { expected, got } => AnswerError::MismatchedGridRadioRowId { expected, got },
    }
}

impl AnswerError {
    /// The answer error for each kind of item check failure.
    pub open spec fn check_error_kind_of(kind: CheckAnswerItemErrorKind) -> AnswerError {
        match kind {
            CheckAnswerItemErrorKind::NotAnsweredWithoutCondition => AnswerError::NotAnsweredWithoutCondition,
            CheckAnswerItemErrorKind::NotAnsweredWithCondition => AnswerError::NotAnsweredWithCondition,
            CheckAnswerItemErrorKind::UnexpectedAnswer => AnswerError::UnexpectedAnswer,
            CheckAnswerItemErrorKind::MismatchedItemType => AnswerError::MismatchedItemType,
            CheckAnswerItemErrorKind::NotAnsweredText => AnswerError::NotAnsweredText,
            CheckAnswerItemErrorKind::TooLongText => AnswerError::TooLongText,
            CheckAnswerItemErrorKind::TooShortText => AnswerError::TooShortText,
            CheckAnswerItemErrorKind::NotAllowedMultipleLineText => AnswerError::NotAllowedMultipleLineText,
            CheckAnswerItemErrorKind::NotAnsweredInteger => AnswerError::NotAnsweredInteger,
            CheckAnswerItemErrorKind::TooBigInteger => AnswerError::TooBigInteger,
            CheckAnswerItemErrorKind::TooSmallInteger => AnswerError::TooSmallInteger,
            CheckAnswerItemErrorKind::TooManyChecks => AnswerError::TooManyChecks,
            CheckAnswerItemErrorKind::TooFewChecks => AnswerError::TooFewChecks,
            CheckAnswerItemErrorKind::NotAnsweredRadio => AnswerError::NotAnsweredRadio,
            CheckAnswerItemErrorKind::NotAnsweredGridRadioRows => AnswerError::NotAnsweredGridRadioRows,
            CheckAnswerItemErrorKind::NotAnsweredFile => AnswerError::NotAnsweredFile,
            CheckAnswerItemErrorKind::NotAllowedMultipleFiles => AnswerError::NotAllowedMultipleFiles,
            CheckAnswerItemErrorKind::NotAllowedFileType => AnswerError::NotAllowedFileType,
            CheckAnswerItemErrorKind::MismatchedGridRadioRowsLength => AnswerError::MismatchedGridRadioRowsLength,
            CheckAnswerItemErrorKind::UnknownCheckboxId { id } => AnswerError::UnknownCheckboxId { id },
            CheckAnswerItemErrorKind::UnknownRadioId { id } => AnswerError::UnknownRadioId { id },
            CheckAnswerItemErrorKind::UnknownGridRadioColumnId { id } => AnswerError::UnknownGridRadioColumnId { id },
            CheckAnswerItemErrorKind::NotAllowedDuplicatedGridRadioColumn { id } => AnswerError::NotAllowedDuplicatedGridRadioColumn { id },
            CheckAnswerItemErrorKind::MismatchedGridRadioRowId { expected, got } => AnswerError::MismatchedGridRadioRowId { expected, got },
        }
    }

    pub fn from_check_error_kind(kind: CheckAnswerItemErrorKind) -> (res: Self)
        ensures
            res == Self::check_error_kind_of(kind),
    {
        match kind {
            CheckAnswerItemErrorKind::NotAnsweredWithoutCondition => AnswerError::NotAnsweredWithoutCondition,
            CheckAnswerItemErrorKind::NotAnsweredWithCondition => AnswerError::NotAnsweredWithCondition,
            CheckAnswerItemErrorKind::UnexpectedAnswer => AnswerError::UnexpectedAnswer,
            CheckAnswerItemErrorKind::MismatchedItemType => AnswerError::MismatchedItemType,
            CheckAnswerItemErrorKind::NotAnsweredText => AnswerError::NotAnsweredText,
            CheckAnswerItemErrorKind::TooLongText => AnswerError::TooLongText,
            CheckAnswerItemErrorKind::TooShortText => AnswerError::TooShortText,
            CheckAnswerItemErrorKind::NotAllowedMultipleLineText => AnswerError::NotAllowedMultipleLineText,
            CheckAnswerItemErrorKind::NotAnsweredInteger => AnswerError::NotAnsweredInteger,
            CheckAnswerItemErrorKind::TooBigInteger => AnswerError::TooBigInteger,
            CheckAnswerItemErrorKind::TooSmallInteger => AnswerError::TooSmallInteger,
            CheckAnswerItemErrorKind::TooManyChecks => AnswerError::TooManyChecks,
            CheckAnswerItemErrorKind::TooFewChecks => AnswerError::TooFewChecks,
            CheckAnswerItemErrorKind::NotAnsweredRadio => AnswerError::NotAnsweredRadio,
            CheckAnswerItemErrorKind::NotAnsweredGridRadioRows => AnswerError::NotAnsweredGridRadioRows,
            CheckAnswerItemErrorKind::NotAnsweredFile => AnswerError::NotAnsweredFile,
            CheckAnswerItemErrorKind::NotAllowedMultipleFiles => AnswerError::NotAllowedMultipleFiles,
            CheckAnswerItemErrorKind::NotAllowedFileType => AnswerError::NotAllowedFileType,
            CheckAnswerItemErrorKind::MismatchedGridRadioRowsLength => AnswerError::MismatchedGridRadioRowsLength,
            CheckAnswerItemErrorKind::UnknownCheckboxId { id } => AnswerError::UnknownCheckboxId { id },
            CheckAnswerItemErrorKind::UnknownRadioId { id } => AnswerError::UnknownRadioId { id },
            CheckAnswerItemErrorKind::UnknownGridRadioColumnId { id } => AnswerError::UnknownGridRadioColumnId { id },
            CheckAnswerItemErrorKind::NotAllowedDuplicatedGridRadioColumn { id } => AnswerError::NotAllowedDuplicatedGridRadioColumn { id },
            CheckAnswerItemErrorKind::MismatchedGridRadioRowId { expected, got } => AnswerError::MismatchedGridRadioRowId { expected, got },
        }
    }
}

/// A failed item check is reported under the same name, with the same
/// identifiers, when a form is answered here as by the general answer check.
pub proof fn lemma_answer_error_agrees_with_check_error(kind: CheckAnswerItemErrorKind)
    ensures
        AnswerError::check_error_kind_of(kind) == answer_error_from_item_error(check_answer_item_error_of(kind)),
{
}

#[derive(Debug, Clone, Copy, PartialEq, Eq, Structural)]
pub enum Error {
    ProjectNotFound,
    FormNotFound,
    OutOfAnswerPeriod,
    AlreadyAnswered,
    NoItems,
    TooManyItems,
    InvalidItem(FormItemId, ItemError),
    MismatchedItemsLength,
    MismatchedItemId { expected: FormItemId, got: FormItemId },
    InvalidAnswer(FormItemId, AnswerError),
}

impl Error {
    pub open spec fn items_error_of(kind: AnswerItemsLengthErrorKind) -> Error {
        match kind {
            AnswerItemsLengthErrorKind::Empty => Error::NoItems,
            AnswerItemsLengthErrorKind::TooLong => Error::TooManyItems,
        }
    }

    pub fn from_items_error(kind: AnswerItemsLengthErrorKind) -> (res: Self)
        ensures
            res == Self::items_error_of(kind),
    {
        match kind {
            AnswerItemsLengthErrorKind::Empty => Error::NoItems,
            AnswerItemsLengthErrorKind::TooLong => Error::TooManyItems,
        }
    }

    pub open spec fn check_error_of(kind: CheckAnswerErrorKind) -> Error {
        match kind {
            CheckAnswerErrorKind::MismatchedItemsLength => Error::MismatchedItemsLength,
            CheckAnswerErrorKind::MismatchedItemId { expected, got } => Error::MismatchedItemId { expected, got },
            CheckAnswerErrorKind::Item(item_id, inner) => Error::InvalidAnswer(item_id, AnswerError::check_error_kind_of(inner)),
        }
    }

    pub fn from_check_error(kind: CheckAnswerErrorKind) -> (res: Self)
        ensures
            res == Self::check_error_of(kind),
    {
        match kind {
            CheckAnswerErrorKind::MismatchedItemsLength => Error::MismatchedItemsLength,
            CheckAnswerErrorKind::MismatchedItemId { expected, got } => Error::MismatchedItemId { expected, got },
            CheckAnswerErrorKind::Item(item_id, inner) => Error::InvalidAnswer(item_id, AnswerError::from_check_error_kind(inner)),
        }
    }
}

/// The outcome of an answer item decision, with its error renamed.
pub open spec fn renamed<T>(o: Outcome<T, FormAnswerItemError>) -> Outcome<T, ItemError> {
    match o {
        Outcome::Done(t) => Outcome::Done(t),
        Outcome::Refused(e) => Outcome::Refused(item_error_of(e)),
        Outcome::Failed => Outcome::Failed,
    }
}

/// What taking a file of a file answer for the form answer of a project
/// comes to: the sharing to store first, if any, then the result.
pub struct ItemFileDecision {
    pub store: Option<NewSharing>,
    pub result: UseCaseResult<FileSharingAnswer, ItemError>,
}

/// Takes a file of a file answer for the form answer of a project to a form:
/// a new sharing is made in the scope of that answer.
pub fn to_file_sharing_answer_item(project: ProjectId, form: FormId, lookup: FileAnswerLookup) -> (res: ItemFileDecision)
    ensures
        outcome(res.result) == renamed(file_answer_outcome(lookup)),
        res.store == file_answer_store(ShareTarget::FormAnswer { project, form }, lookup),
{
    let decision = to_file_sharing_answer(&ShareTarget::FormAnswer { project, form }, lookup);
    let result = match decision.result {
        Ok(s) => Ok(s),
        Err(UseCaseError::UseCase(e)) => Err(UseCaseError::UseCase(to_item_error(e))),
        Err(UseCaseError::Internal(e)) => Err(UseCaseError::Internal(e)),
    };
    ItemFileDecision { store: decision.store, result }
}

/// Makes an answer item for the form answer of a project.
pub fn to_form_answer_item<S>(item: InputFormAnswerItem, checks: AnswerBodyChecks<S>) -> (res: UseCaseResult<FormAnswerItem<S>, ItemError>)
    ensures
        unit_outcome(res) == renamed(answer_item_outcome(item, checks)),
        res matches Ok(built) ==> built_answer_item(item, checks, built),
        files_internal(item, checks) matches Some(e)
            ==> res == Err::<FormAnswerItem<S>, UseCaseError<ItemError>>(UseCaseError::Internal(e)),
{
    match crate::interface::form_answer::to_form_answer_item(item, checks) {
        Ok(built) => Ok(built),
        Err(UseCaseError::UseCase(e)) => Err(UseCaseError::UseCase(to_item_error(e))),
        Err(UseCaseError::Internal(e)) => Err(UseCaseError::Internal(e)),
    }
}

/// What the repositories and the entity layer reported while answering a form.
pub struct Observations<I> {
    /// The project, with whether the user may see it.
    pub project: Option<Found<ProjectId>>,
    /// The form.
    pub form: Option<FormId>,
    /// Whether the form's condition selects the project and the user may see
    /// the form with the project.
    pub form_targets_project: bool,
    /// Each answer item with what deciding on it gave.
    pub items: Vec<Keyed<FormItemId, I, ItemError>>,
    /// The verdict on the number of answer items.
    pub items_length: Result<(), AnswerItemsLengthErrorKind>,
    /// Whether the form's answer period contains the present time.
    pub in_answer_period: bool,
    /// Whether the project already answered the form.
    pub already_answered: bool,
    /// The verdict of checking the answer items against the form's items.
    pub check: Result<(), CheckAnswerErrorKind>,
    /// The identifier, time and author of the new answer.
    pub creation: Creation<FormAnswerId>,
    /// Whether the user may see the answer made, with the project.
    pub answer_visible: bool,
}

/// An answer to a form as it is made.
#[derive(Debug)]
pub struct FormAnswer<I> {
    pub id: FormAnswerId,
    pub created_at: i64,
    pub author_id: UserId,
    pub project_id: ProjectId,
    pub form_id: FormId,
    /// The answer items, in the order they were given.
    pub items: Vec<I>,
}

impl<I> FormAnswer<I> {
    /// Whether this is the answer made with the identifier, time and author
    /// of `creation`, by `project` to `form`, with `items`.
    pub open spec fn made_of(
        self,
        creation: Creation<FormAnswerId>,
        project: ProjectId,
        form: FormId,
        items: Seq<I>,
    ) -> bool {
        &&& self.id == creation.id
        &&& self.created_at == creation.created_at
        &&& self.author_id == creation.author_id
        &&& self.project_id == project
        &&& self.form_id == form
        &&& self.items@ == items
    }
}

/// The outcome of answering a form, in the order of the checks: the answer
/// is made where every check passes, and given where the user may see it.
pub open spec fn run_outcome<I>(o: Observations<I>) -> Outcome<(), Error> {
    if visible_entity(o.project) is None {
        Outcome::Refused(Error::ProjectNotFound)
    } else if o.form is None || !o.form_targets_project {
        Outcome::Refused(Error::FormNotFound)
    } else {
        match keyed_outcome(o.items@) {
            Outcome::Refused((id, e)) => Outcome::Refused(Error::InvalidItem(id, e)),
            Outcome::Failed => Outcome::Failed,
            Outcome::Done(_) => match o.items_length {
                Err(k) => Outcome::Refused(Error::items_error_of(k)),
                Ok(_) => if !o.in_answer_period {
                    Outcome::Refused(Error::OutOfAnswerPeriod)
                } else if o.already_answered {
                    Outcome::Refused(Error::AlreadyAnswered)
                } else {
                    match o.check {
                        Err(k) => Outcome::Refused(Error::check_error_of(k)),
                        Ok(_) => if o.answer_visible { Outcome::Done(()) } else { Outcome::Failed },
                    }
                },
            },
        }
    }
}

/// The items of an answer: the values of its items, each taken, in order.
pub open spec fn answer_items<I>(o: Observations<I>) -> Seq<I> {
    keyed_outcome(o.items@)->Done_0
}

/// Answers a form on behalf of a project, given what the repositories and
/// the entity layer reported. The answer made holds the project, the form,
/// the items taken in order, and the identifier, time and author given.
pub fn run<I>(o: Observations<I>) -> (res: UseCaseResult<FormAnswer<I>, Error>)
    ensures
        verdict(res) == run_outcome(o),
        res matches Ok(a) ==> a.made_of(o.creation, visible_entity(o.project)->Some_0, o.form->Some_0, answer_items(o)),
        visible_entity(o.project) is Some && o.form is Some && o.form_targets_project
            ==> (keyed_internal(o.items@) matches Some(e)
                ==> res == Err::<FormAnswer<I>, UseCaseError<Error>>(UseCaseError::Internal(e))),
{
    let ghost target = o;
    let Observations {
        project,
        form,
        form_targets_project,
        items,
        items_length,
        in_answer_period,
        already_answered,
        check,
        creation,
        answer_visible,
    } = o;
    let project_id = match project {
        Some(p) => {
            if !p.visible {
                return Err(UseCaseError::UseCase(Error::ProjectNotFound));
            }
            p.entity
        },
        None => return Err(UseCaseError::UseCase(Error::ProjectNotFound)),
    };
    let form_id = match form {
        Some(f) => f,
        None => return Err(UseCaseError::UseCase(Error::FormNotFound)),
    };
    if !form_targets_project {
        return Err(UseCaseError::UseCase(Error::FormNotFound));
    }
    let taken = match decide_keyed(items) {
        Ok(v) => v,
        Err(UseCaseError::UseCase((id, e))) => return Err(UseCaseError::UseCase(Error::InvalidItem(id, e))),
        Err(UseCaseError::Internal(e)) => return Err(UseCaseError::Internal(e)),
    };
    if let Err(k) = items_length {
        return Err(UseCaseError::UseCase(Error::from_items_error(k)));
    }
    if !in_answer_period {
        return Err(UseCaseError::UseCase(Error::OutOfAnswerPeriod));
    }
    if already_answered {
        return Err(UseCaseError::UseCase(Error::AlreadyAnswered));
    }
    if let Err(k) = check {
        return Err(UseCaseError::UseCase(Error::from_check_error(k)));
    }
    let answer = FormAnswer {
        id: creation.id,
        created_at: creation.created_at,
        author_id: creation.author_id,
        project_id,
        form_id,
        items: taken,
    };
    if !answer_visible {
        return Err(UseCaseError::Internal(crate::error::internal_error("Condition failed: the answer is visible")));
    }
    Ok(answer)
}

/// A change that answering a form makes to the repositories, besides the
/// file sharings its file items store.
#[derive(Debug, Clone, Copy, PartialEq, Eq, Structural)]
pub enum Effect {
    /// Store the answer made.
    StoreAnswer,
}

/// The changes answering a form makes: the answer is stored where every
/// check before it passes; its visibility is checked only after it is stored.
pub open spec fn answer_effects<I>(o: Observations<I>) -> Seq<Effect> {
    if visible_entity(o.project) is Some && o.form is Some && o.form_targets_project
        && keyed_outcome(o.items@) is Done && o.items_length is Ok && o.in_answer_period
        && !o.already_answered && o.check is Ok {
        seq![Effect::StoreAnswer]
    } else {
        seq![]
    }
}

/// Gives the changes answering a form makes, from the same observations
/// `run` decides on.
pub fn effects<I>(o: &Observations<I>) -> (res: Vec<Effect>)
    ensures
        res@ == answer_effects(*o),
{
    let mut out: Vec<Effect> = Vec::new();
    let project_found = match &o.project {
        Some(p) => p.visible,
        None => false,
    };
    if project_found && o.form.is_some() && o.form_targets_project && crate::flow::check_all_taken(&o.items)
        && o.items_length.is_ok() && o.in_answer_period && !o.already_answered && o.check.is_ok() {
        out.push(Effect::StoreAnswer);
    }
    out
}

/// Where no answer item failed internally, the answer is stored exactly
/// where answering is not refused.
pub proof fn lemma_answer_stored_unless_refused<I>(o: Observations<I>)
    requires
        !(keyed_outcome(o.items@) is Failed),
    ensures
        answer_effects(o).len() == 1 <==> !(run_outcome(o) is Refused),
{
}

/// Whether every check of an answer before the check against the form's
/// items passes.
pub open spec fn passes_until_check<I>(o: Observations<I>) -> bool {
    &&& visible_entity(o.project) is Some
    &&& o.form is Some
    &&& o.form_targets_project
    &&& keyed_outcome(o.items@) is Done
    &&& o.items_length is Ok
    &&& o.in_answer_period
    &&& !o.already_answered
}

/// Where an answer fails the check against the form's items for one item, it
/// is refused as an invalid answer to that very item, with the failure that
/// the general answer check reports for it (never as a mismatch of the items'
/// number or identifiers); and two different failures of the check are never
/// refused alike.
pub proof fn lemma_item_check_failure_reported<I>(
    o: Observations<I>,
    id: FormItemId,
    kind: CheckAnswerItemErrorKind,
    other: CheckAnswerErrorKind,
)
    requires
        passes_until_check(o),
    ensures
        run_outcome(Observations { check: Err(CheckAnswerErrorKind::Item(id, kind)), ..o })
            == Outcome::<(), Error>::Refused(Error::InvalidAnswer(id, answer_error_from_item_error(check_answer_item_error_of(kind)))),
        run_outcome(Observations { check: Err(other), ..o })
            == run_outcome(Observations { check: Err(CheckAnswerErrorKind::Item(id, kind)), ..o })
            ==> other == CheckAnswerErrorKind::Item(id, kind),
        run_outcome(Observations { check: Err(CheckAnswerErrorKind::MismatchedItemsLength), ..o })
            == Outcome::<(), Error>::Refused(Error::MismatchedItemsLength),
{
}

/// Each refusal of an answer item, and of the number of items, is reported
/// under its own name: two different refusals are never reported alike; a
/// refused number of items is told as the answer items themselves tell it
/// (too few as no items, too many as too many), and never as an invalid or
/// mismatched item.
pub proof fn lemma_answer_refusals_distinct(
    e1: FormAnswerItemError,
    e2: FormAnswerItemError,
    l1: AnswerItemsLengthErrorKind,
    l2: AnswerItemsLengthErrorKind,
    k1: CheckAnswerItemErrorKind,
    k2: CheckAnswerItemErrorKind,
)
    ensures
        item_error_of(e1) == item_error_of(e2) ==> e1 == e2,
        AnswerError::check_error_kind_of(k1) == AnswerError::check_error_kind_of(k2) ==> k1 == k2,
        Error::items_error_of(l1) == Error::items_error_of(l2) ==> l1 == l2,
        (Error::items_error_of(l1) is NoItems) <==> (FormAnswerItemsError::items_error_of(l1) is NoItems),
        (Error::items_error_of(l1) is TooManyItems) <==> (FormAnswerItemsError::items_error_of(l1) is TooManyItems),
{
}

} // verus!
