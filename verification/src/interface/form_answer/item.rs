use vstd::prelude::*;

use crate::domain::{
    AnswerItemsLengthErrorKind, CheckedIdsErrorKind, NonSharableFileError, RowAnswersErrorKind,
    SharingAnswersErrorKind,
};
use crate::error::{outcome, Outcome, UseCaseError, UseCaseResult};
use crate::flow::{collect_results, first_error, lemma_prefixed_push, ok_values, prefixed, visible_entity, Found};
use crate::model::{
    CheckboxId, FileId, FileSharingId, FormId, FormItemId, GridRadioRowAnswer, GridRadioRowId,
    PendingProjectId, ProjectId, RadioId, RegistrationFormId,
};

verus! {

/// An answer item as given.
#[derive(Debug, Clone)]
pub struct InputFormAnswerItem {
    pub item_id: FormItemId,
    pub body: Option<InputFormAnswerItemBody>,
}

#[derive(Debug, Clone)]
pub enum InputFormAnswerItemBody {
    Text(Option<String>),
    Integer(Option<u64>),
    Checkbox(Vec<CheckboxId>),
    Radio(Option<RadioId>),
    GridRadio(Vec<GridRadioRowAnswer>),
    File(Vec<InputFormAnswerItemFile>),
}

/// A file of a file answer: an existing sharing, or a file to share.
#[derive(Debug, Clone)]
pub enum InputFormAnswerItemFile {
    Sharing(FileSharingId),
    File(FileId),
}

/// Why an answer item is refused.
#[derive(Debug, Clone, Copy, PartialEq, Eq, Structural)]
pub enum FormAnswerItemError {
    FileNotFound,
    FileSharingNotFound,
    OutOfScopeFileSharing,
    NonSharableFile,
    TooManyFiles,
    DuplicatedFileSharingId { id: FileSharingId },
    InvalidText,
    TooManyChecks,
    NoRowAnswers,
    TooManyRowAnswers,
    DuplicatedCheckboxId { id: CheckboxId },
    DuplicatedGridRadioRowId { id: GridRadioRowId },
}

impl FormAnswerItemError {
    /// A text the entity layer refuses.
    pub fn from_text_item_error() -> (res: Self)
        ensures
            res == FormAnswerItemError::InvalidText,
    {
        FormAnswerItemError::InvalidText
    }

    pub open spec fn checks_error_of(kind: CheckedIdsErrorKind) -> FormAnswerItemError {
        match kind {
            CheckedIdsErrorKind::TooLong => FormAnswerItemError::TooManyChecks,
            CheckedIdsErrorKind::Duplicated(id) => FormAnswerItemError::DuplicatedCheckboxId { id },
        }
    }

    pub fn from_checks_error(kind: CheckedIdsErrorKind) -> (res: Self)
        ensures
            res == Self::checks_error_of(kind),
    {
        match kind {
            CheckedIdsErrorKind::TooLong => FormAnswerItemError::TooManyChecks,
            CheckedIdsErrorKind::Duplicated(id) => FormAnswerItemError::DuplicatedCheckboxId { id },
        }
    }

    pub open spec fn row_answers_error_of(kind: RowAnswersErrorKind) -> FormAnswerItemError {
        match kind {
            RowAnswersErrorKind::Empty => FormAnswerItemError::NoRowAnswers,
            RowAnswersErrorKind::TooLong => FormAnswerItemError::TooManyRowAnswers,
            RowAnswersErrorKind::DuplicatedRowId { id } => FormAnswerItemError::DuplicatedGridRadioRowId { id },
        }
    }

    pub fn from_row_answers_error(kind: RowAnswersErrorKind) -> (res: Self)
        ensures
            res == Self::row_answers_error_of(kind),
    {
        match kind {
            RowAnswersErrorKind::Empty => FormAnswerItemError::NoRowAnswers,
            RowAnswersErrorKind::TooLong => FormAnswerItemError::TooManyRowAnswers,
            RowAnswersErrorKind::DuplicatedRowId { id } => FormAnswerItemError::DuplicatedGridRadioRowId { id },
        }
    }

    /// A file its owner may not share.
    pub fn from_share_error(err: NonSharableFileError) -> (res: Self)
        ensures
            res == FormAnswerItemError::NonSharableFile,
    {
        FormAnswerItemError::NonSharableFile
    }

    pub open spec fn sharing_answers_error_of(kind: SharingAnswersErrorKind) -> FormAnswerItemError {
        match kind {
            SharingAnswersErrorKind::TooLong => FormAnswerItemError::TooManyFiles,
            SharingAnswersErrorKind::Duplicated(id) => FormAnswerItemError::DuplicatedFileSharingId { id },
        }
    }

    pub fn from_sharing_answers_error(kind: SharingAnswersErrorKind) -> (res: Self)
        ensures
            res == Self::sharing_answers_error_of(kind),
    {
        match kind {
            SharingAnswersErrorKind::TooLong => FormAnswerItemError::TooManyFiles,
            SharingAnswersErrorKind::Duplicated(id) => FormAnswerItemError::DuplicatedFileSharingId { id },
        }
    }
}

/// Why the answer items of an answer are refused.
#[derive(Debug, Clone, Copy, PartialEq, Eq, Structural)]
pub enum FormAnswerItemsError {
    NoItems,
    TooManyItems,
    InvalidItem(FormItemId, FormAnswerItemError),
}

impl FormAnswerItemsError {
    pub open spec fn items_error_of(kind: AnswerItemsLengthErrorKind) -> FormAnswerItemsError {
        match kind {
            AnswerItemsLengthErrorKind::Empty => FormAnswerItemsError::NoItems,
            AnswerItemsLengthErrorKind::TooLong => FormAnswerItemsError::TooManyItems,
        }
    }

    pub fn from_items_error(kind: AnswerItemsLengthErrorKind) -> (res: Self)
        ensures
            res == Self::items_error_of(kind),
    {
        match kind {
            AnswerItemsLengthErrorKind::Empty => FormAnswerItemsError::NoItems,
            AnswerItemsLengthErrorKind::TooLong => FormAnswerItemsError::TooManyItems,
        }
    }
}

/// What the repositories and the entity layer reported on a file of a file
/// answer. The file's type is the MIME type as text.
pub enum FileAnswerLookup {
    /// A file to share: its type, where it exists, with whether the user may
    /// see it; the identifier of the sharing the entity layer made of it in
    /// the answer's scope (`ShareTarget::to_scope`), or why it may not be
    /// shared; and whether the answer's scope contains that sharing.
    File { file_type: Option<Found<String>>, shared: Result<FileSharingId, NonSharableFileError>, contained: bool },
    /// An existing sharing, by its identifier: the type of its file, where
    /// the sharing exists, with whether the user may see the sharing with its
    /// file; and whether the sharing lies in the answer's scope.
    Sharing { sharing_id: FileSharingId, file_type: Option<Found<String>>, contained: bool },
}

/// A file of an answer: the sharing it is answered with and the file's type.
#[derive(Debug, Clone)]
pub struct FileSharingAnswer {
    pub sharing_id: FileSharingId,
    pub file_type: String,
}

/// A file sharing to store: its identifier and its scope.
#[derive(Debug, Clone, Copy, PartialEq, Eq, Structural)]
pub struct NewSharing {
    pub sharing_id: FileSharingId,
    pub scope: AnswerSharingScope,
}

/// What taking a file of a file answer comes to: the sharing to store first,
/// if any, then the result.
pub struct FileAnswerDecision {
    pub store: Option<NewSharing>,
    pub result: UseCaseResult<FileSharingAnswer, FormAnswerItemError>,
}

/// The answer whose files are shared: a project's answer to a form, or a
/// pending project's answer to a registration form.
#[derive(Debug, Clone, Copy, PartialEq, Eq, Structural)]
pub enum ShareTarget {
    FormAnswer { project: ProjectId, form: FormId },
    RegistrationFormAnswer { pending_project: PendingProjectId, registration_form: RegistrationFormId },
}

/// Who answers a registration form.
#[derive(Debug, Clone, Copy, PartialEq, Eq, Structural)]
pub enum RegistrationFormAnswerRespondent {
    Project(ProjectId),
    PendingProject(PendingProjectId),
}

/// The scope a file of an answer is shared in.
#[derive(Debug, Clone, Copy, PartialEq, Eq, Structural)]
pub enum AnswerSharingScope {
    FormAnswer(ProjectId, FormId),
    RegistrationFormAnswer(RegistrationFormAnswerRespondent, RegistrationFormId),
}

impl ShareTarget {
    /// The scope of the answer: the project and the form, or the pending
    /// project, as respondent, and the registration form.
    pub open spec fn scope_of(self) -> AnswerSharingScope {
        match self {
            ShareTarget::FormAnswer { project, form } => AnswerSharingScope::FormAnswer(project, form),
            ShareTarget::RegistrationFormAnswer { pending_project, registration_form } =>
                AnswerSharingScope::RegistrationFormAnswer(
                    RegistrationFormAnswerRespondent::PendingProject(pending_project),
                    registration_form,
                ),
        }
    }

    /// Gives the scope in which a file of the answer is shared.
    pub fn to_scope(&self) -> (res: AnswerSharingScope)
        ensures
            res == self.scope_of(),
    {
        match self {
            ShareTarget::FormAnswer { project, form } => AnswerSharingScope::FormAnswer(*project, *form),
            ShareTarget::RegistrationFormAnswer { pending_project, registration_form } =>
                AnswerSharingScope::RegistrationFormAnswer(
                    RegistrationFormAnswerRespondent::PendingProject(*pending_project),
                    *registration_form,
                ),
        }
    }
}

/// The outcome of taking a file of a file answer.
pub open spec fn file_answer_outcome(lookup: FileAnswerLookup) -> Outcome<FileSharingAnswer, FormAnswerItemError> {
    match lookup {
        FileAnswerLookup::File { file_type, shared, contained } => match visible_entity(file_type) {
            None => Outcome::Refused(FormAnswerItemError::FileNotFound),
            Some(t) => match shared {
                Err(_) => Outcome::Refused(FormAnswerItemError::NonSharableFile),
                Ok(id) => if contained {
                    Outcome::Done(FileSharingAnswer { sharing_id: id, file_type: t })
                } else {
                    Outcome::Failed
                },
            },
        },
        FileAnswerLookup::Sharing { sharing_id, file_type, contained } => match visible_entity(file_type) {
            None => Outcome::Refused(FormAnswerItemError::FileSharingNotFound),
            Some(t) => if contained {
                Outcome::Done(FileSharingAnswer { sharing_id, file_type: t })
            } else {
                Outcome::Refused(FormAnswerItemError::OutOfScopeFileSharing)
            },
        },
    }
}

/// The sharing stored while taking a file of a file answer: the one made of
/// a file the user may see and may share, in the answer's scope. An existing
/// sharing, or a file refused, stores nothing.
pub open spec fn file_answer_store(target: ShareTarget, lookup: FileAnswerLookup) -> Option<NewSharing> {
    match lookup {
        FileAnswerLookup::File { file_type, shared, contained } => match (visible_entity(file_type), shared) {
            (Some(_), Ok(id)) => Some(NewSharing { sharing_id: id, scope: target.scope_of() }),
            _ => None,
        },
        FileAnswerLookup::Sharing { .. } => None,
    }
}

/// Takes a file of a file answer: a file the user may see is shared in the
/// answer's scope, and the new sharing is stored; an existing sharing the
/// user may see must lie in that scope.
pub fn to_file_sharing_answer(target: &ShareTarget, lookup: FileAnswerLookup) -> (res: FileAnswerDecision)
    ensures
        outcome(res.result) == file_answer_outcome(lookup),
        res.store == file_answer_store(*target, lookup),
{
    match lookup {
        FileAnswerLookup::File { file_type, shared, contained } => {
            let file_type = match file_type {
                Some(f) => {
                    if !f.visible {
                        return FileAnswerDecision { store: None, result: Err(UseCaseError::UseCase(FormAnswerItemError::FileNotFound)) };
                    }
                    f.entity
                },
                None => return FileAnswerDecision { store: None, result: Err(UseCaseError::UseCase(FormAnswerItemError::FileNotFound)) },
            };
            let sharing_id = match shared {
                Ok(id) => id,
                Err(e) => return FileAnswerDecision {
                    store: None,
                    result: Err(UseCaseError::UseCase(FormAnswerItemError::from_share_error(e))),
                },
            };
            let store = Some(NewSharing { sharing_id, scope: target.to_scope() });
            if !contained {
                return FileAnswerDecision {
                    store,
                    result: Err(UseCaseError::Internal(crate::error::internal_error("Condition failed: the answer's scope contains the sharing"))),
                };
            }
            FileAnswerDecision { store, result: Ok(FileSharingAnswer { sharing_id, file_type }) }
        },
        FileAnswerLookup::Sharing { sharing_id, file_type, contained } => {
            let file_type = match file_type {
                Some(f) => {
                    if !f.visible {
                        return FileAnswerDecision { store: None, result: Err(UseCaseError::UseCase(FormAnswerItemError::FileSharingNotFound)) };
                    }
                    f.entity
                },
                None => return FileAnswerDecision { store: None, result: Err(UseCaseError::UseCase(FormAnswerItemError::FileSharingNotFound)) },
            };
            if !contained {
                return FileAnswerDecision { store: None, result: Err(UseCaseError::UseCase(FormAnswerItemError::OutOfScopeFileSharing)) };
            }
            FileAnswerDecision { store: None, result: Ok(FileSharingAnswer { sharing_id, file_type }) }
        },
    }
}

/// What the entity layer reported on the body of an answer item: the check
/// that fits the kind of the body (none for a missing body, an integer, a
/// radio answer or a text left empty).
pub enum AnswerBodyChecks<S> {
    Unchecked,
    Text { accepted: bool },
    Checkbox { checks: Result<(), CheckedIdsErrorKind> },
    GridRadio { rows: Result<(), RowAnswersErrorKind> },
    /// The files as taken one by one (up to the first not taken), and the
    /// verdict on the sharings taken together.
    File { files: Vec<UseCaseResult<S, FormAnswerItemError>>, sharings: Result<(), SharingAnswersErrorKind> },
}

/// An answer item: the form item it answers and its body, if any.
#[derive(Debug, Clone)]
pub struct FormAnswerItem<S> {
    pub item_id: FormItemId,
    pub body: Option<FormAnswerItemBody<S>>,
}

/// The body of an answer item; a file answer holds its files as taken.
#[derive(Debug, Clone)]
pub enum FormAnswerItemBody<S> {
    Text(Option<String>),
    Integer(Option<u64>),
    Checkbox(Vec<CheckboxId>),
    Radio(Option<RadioId>),
    GridRadio(Vec<GridRadioRowAnswer>),
    File(Vec<S>),
}

/// The outcome of the files of a file answer: the first that was not taken decides.
pub open spec fn files_outcome<S>(files: Seq<UseCaseResult<S, FormAnswerItemError>>) -> Outcome<(), FormAnswerItemError> {
    match first_error(files) {
        Some(UseCaseError::UseCase(e)) => Outcome::Refused(e),
        Some(UseCaseError::Internal(_)) => Outcome::Failed,
        None => Outcome::Done(()),
    }
}

/// The outcome of an answer item: a missing body, an integer, a radio answer
/// and a text left empty are taken as given; a text, a checkbox answer, a
/// grid answer and a file answer go by the entity layer's check of their
/// kind (a check of another kind is an internal failure).
pub open spec fn answer_item_outcome<S>(item: InputFormAnswerItem, checks: AnswerBodyChecks<S>) -> Outcome<(), FormAnswerItemError> {
    match item.body {
        None => Outcome::Done(()),
        Some(InputFormAnswerItemBody::Text(None)) => Outcome::Done(()),
        Some(InputFormAnswerItemBody::Integer(_)) => Outcome::Done(()),
        Some(InputFormAnswerItemBody::Radio(_)) => Outcome::Done(()),
        Some(InputFormAnswerItemBody::Text(Some(_))) => match checks {
            AnswerBodyChecks::Text { accepted } =>
                if accepted { Outcome::Done(()) } else { Outcome::Refused(FormAnswerItemError::InvalidText) },
            _ => Outcome::Failed,
        },
        Some(InputFormAnswerItemBody::Checkbox(_)) => match checks {
            AnswerBodyChecks::Checkbox { checks } => match checks {
                Err(k) => Outcome::Refused(FormAnswerItemError::checks_error_of(k)),
                Ok(_) => Outcome::Done(()),
            },
            _ => Outcome::Failed,
        },
        Some(InputFormAnswerItemBody::GridRadio(_)) => match checks {
            AnswerBodyChecks::GridRadio { rows } => match rows {
                Err(k) => Outcome::Refused(FormAnswerItemError::row_answers_error_of(k)),
                Ok(_) => Outcome::Done(()),
            },
            _ => Outcome::Failed,
        },
        Some(InputFormAnswerItemBody::File(_)) => match checks {
            AnswerBodyChecks::File { files, sharings } => match files_outcome(files@) {
                Outcome::Done(_) => match sharings {
                    Err(k) => Outcome::Refused(FormAnswerItemError::sharing_answers_error_of(k)),
                    Ok(_) => Outcome::Done(()),
                },
                other => other,
            },
            _ => Outcome::Failed,
        },
    }
}

/// Whether `built` is the answer item made of `item`: the same form item,
/// and the same body, where a file answer holds the files taken.
pub open spec fn built_answer_item<S>(item: InputFormAnswerItem, checks: AnswerBodyChecks<S>, built: FormAnswerItem<S>) -> bool {
    &&& built.item_id == item.item_id
    &&& match (item.body, built.body) {
        (None, None) => true,
        (Some(InputFormAnswerItemBody::Text(a)), Some(FormAnswerItemBody::Text(b))) => a == b,
        (Some(InputFormAnswerItemBody::Integer(a)), Some(FormAnswerItemBody::Integer(b))) => a == b,
        (Some(InputFormAnswerItemBody::Checkbox(a)), Some(FormAnswerItemBody::Checkbox(b))) => a@ == b@,
        (Some(InputFormAnswerItemBody::Radio(a)), Some(FormAnswerItemBody::Radio(b))) => a == b,
        (Some(InputFormAnswerItemBody::GridRadio(a)), Some(FormAnswerItemBody::GridRadio(b))) => a@ == b@,
        (Some(InputFormAnswerItemBody::File(_)), Some(FormAnswerItemBody::File(v))) =>
            checks matches AnswerBodyChecks::File { files, .. } && v@ == ok_values(files@),
        _ => false,
    }
}

/// The internal error with which the first file of a file answer failed,
/// where the check given is of files and the first file not taken failed
/// internally.
pub open spec fn files_internal<S>(item: InputFormAnswerItem, checks: AnswerBodyChecks<S>) -> Option<crate::error::InternalError> {
    match (item.body, checks) {
        (Some(InputFormAnswerItemBody::File(_)), AnswerBodyChecks::File { files, .. }) => match first_error(files@) {
            Some(UseCaseError::Internal(e)) => Some(e),
            _ => None,
        },
        _ => None,
    }
}

/// The outcome of a result, with the value forgotten.
pub open spec fn unit_outcome<T, E>(res: UseCaseResult<T, E>) -> Outcome<(), E> {
    match outcome(res) {
        Outcome::Done(_) => Outcome::Done(()),
        Outcome::Refused(e) => Outcome::Refused(e),
        Outcome::Failed => Outcome::Failed,
    }
}

fn unchecked_kind() -> (res: UseCaseError<FormAnswerItemError>)
    ensures
        res is Internal,
{
    UseCaseError::Internal(crate::error::internal_error("The check does not fit the kind of the answer"))
}

/// Makes an answer item of an answer item as given, with what the entity
/// layer reported on its body.
pub fn to_form_answer_item<S>(item: InputFormAnswerItem, checks: AnswerBodyChecks<S>) -> (res: UseCaseResult<FormAnswerItem<S>, FormAnswerItemError>)
    ensures
        unit_outcome(res) == answer_item_outcome(item, checks),
        res matches Ok(built) ==> built_answer_item(item, checks, built),
        files_internal(item, checks) matches Some(e)
            ==> res == Err::<FormAnswerItem<S>, UseCaseError<FormAnswerItemError>>(UseCaseError::Internal(e)),
{
    let ghost given = item;
    let InputFormAnswerItem { item_id, body } = item;
    let body = match body {
        None => return Ok(FormAnswerItem { item_id, body: None }),
        Some(b) => b,
    };
    let built = match body {
        InputFormAnswerItemBody::Text(None) => FormAnswerItemBody::Text(None),
        InputFormAnswerItemBody::Integer(a) => FormAnswerItemBody::Integer(a),
        InputFormAnswerItemBody::Radio(a) => FormAnswerItemBody::Radio(a),
        InputFormAnswerItemBody::Text(Some(t)) => match checks {
            AnswerBodyChecks::Text { accepted } => {
                if !accepted {
                    return Err(UseCaseError::UseCase(FormAnswerItemError::from_text_item_error()));
                }
                FormAnswerItemBody::Text(Some(t))
            },
            _ => return Err(unchecked_kind()),
        },
        InputFormAnswerItemBody::Checkbox(ids) => match checks {
            AnswerBodyChecks::Checkbox { checks } => match checks {
                Err(k) => return Err(UseCaseError::UseCase(FormAnswerItemError::from_checks_error(k))),
                Ok(_) => FormAnswerItemBody::Checkbox(ids),
            },
            _ => return Err(unchecked_kind()),
        },
        InputFormAnswerItemBody::GridRadio(rows) => match checks {
            AnswerBodyChecks::GridRadio { rows: verdict } => match verdict {
                Err(k) => return Err(UseCaseError::UseCase(FormAnswerItemError::from_row_answers_error(k))),
                Ok(_) => FormAnswerItemBody::GridRadio(rows),
            },
            _ => return Err(unchecked_kind()),
        },
        InputFormAnswerItemBody::File(_) => match checks {
            AnswerBodyChecks::File { files, sharings } => {
                let ghost all = files@;
                let taken = match collect_results(files) {
                    Ok(v) => v,
                    Err(e) => return Err(e),
                };
                match sharings {
                    Err(k) => return Err(UseCaseError::UseCase(FormAnswerItemError::from_sharing_answers_error(k))),
                    Ok(_) => {},
                }
                FormAnswerItemBody::File(taken)
            },
            _ => return Err(unchecked_kind()),
        },
    };
    Ok(FormAnswerItem { item_id, body: Some(built) })
}

/// An answer item with what deciding on it gave.
pub struct DecidedAnswerItem<I> {
    pub item_id: FormItemId,
    pub result: UseCaseResult<I, FormAnswerItemError>,
}

/// The outcome of the answer items of an answer: the first item refused
/// makes them invalid with that item's error, an internal failure fails;
/// otherwise the verdict on their number decides.
pub open spec fn answer_items_outcome<I>(items: Seq<DecidedAnswerItem<I>>, length: Result<(), AnswerItemsLengthErrorKind>) -> Outcome<Seq<I>, FormAnswerItemsError>
    decreases items.len(),
{
    if items.len() == 0 {
        match length {
            Err(k) => Outcome::Refused(FormAnswerItemsError::items_error_of(k)),
            Ok(_) => Outcome::Done(seq![]),
        }
    } else {
        match outcome(items[0].result) {
            Outcome::Refused(e) => Outcome::Refused(FormAnswerItemsError::InvalidItem(items[0].item_id, e)),
            Outcome::Failed => Outcome::Failed,
            Outcome::Done(v) => match answer_items_outcome(items.drop_first(), length) {
                Outcome::Done(rest) => Outcome::Done(seq![v] + rest),
                other => other,
            },
        }
    }
}

/// The internal error of the first answer item not taken, where that item
/// failed internally.
pub open spec fn answer_items_internal<I>(items: Seq<DecidedAnswerItem<I>>) -> Option<crate::error::InternalError>
    decreases items.len(),
{
    if items.len() == 0 {
        None
    } else {
        match items[0].result {
            Ok(_) => answer_items_internal(items.drop_first()),
            Err(UseCaseError::UseCase(_)) => None,
            Err(UseCaseError::Internal(e)) => Some(e),
        }
    }
}

/// Decides on the answer items of an answer.
pub fn to_form_answer_items<I>(items: Vec<DecidedAnswerItem<I>>, length: Result<(), AnswerItemsLengthErrorKind>) -> (res: UseCaseResult<Vec<I>, FormAnswerItemsError>)
    ensures
        crate::flow::list_outcome(res) == answer_items_outcome(items@, length),
        answer_items_internal(items@) matches Some(e)
            ==> res == Err::<Vec<I>, UseCaseError<FormAnswerItemsError>>(UseCaseError::Internal(e)),
{
    let ghost all = items@;
    let mut rest = items;
    let mut out: Vec<I> = Vec::new();
    let mut i: usize = 0;
    assert(all.skip(0) =~= all);
    assert(prefixed(Seq::<I>::empty(), answer_items_outcome(all, length)) == answer_items_outcome(all, length)) by {
        match answer_items_outcome(all, length) {
            Outcome::Done(r) => { assert(Seq::<I>::empty() + r =~= r); },
            _ => {},
        }
    }
    while rest.len() > 0
        invariant
            all == items@,
            all.len() == items.len(),
            i + rest.len() == all.len(),
            rest@ =~= all.skip(i as int),
            answer_items_outcome(all, length) == prefixed(out@, answer_items_outcome(all.skip(i as int), length)),
            answer_items_internal(all) == answer_items_internal(all.skip(i as int)),
        decreases rest.len(),
    {
        assert(all.skip(i as int).drop_first() =~= all.skip(i + 1));
        assert(all.skip(i as int)[0] == all[i as int]);
        let d = rest.remove(0);
        assert(d == all[i as int]);
        match d.result {
            Ok(v) => {
                let ghost prev = out@;
                out.push(v);
                proof {
                    lemma_prefixed_push(prev, v, answer_items_outcome(all.skip(i + 1), length));
                }
            },
            Err(UseCaseError::UseCase(e)) => {
                return Err(UseCaseError::UseCase(FormAnswerItemsError::InvalidItem(d.item_id, e)));
            },
            Err(UseCaseError::Internal(e)) => {
                return Err(UseCaseError::Internal(e));
            },
        }
        i = i + 1;
    }
    assert(all.skip(i as int) =~= Seq::<DecidedAnswerItem<I>>::empty());
    match length {
        Err(k) => Err(UseCaseError::UseCase(FormAnswerItemsError::from_items_error(k))),
        Ok(_) => {
            assert(out@ + Seq::<I>::empty() =~= out@);
            Ok(out)
        },
    }
}

/// Decides on the answer items of an answer to a registration form, each item
/// decided with `ShareTarget::RegistrationFormAnswer` as the target of the
/// files it shares; the items are taken as for an answer to a form.
pub fn to_registration_form_answer_items<I>(
    items: Vec<DecidedAnswerItem<I>>,
    length: Result<(), AnswerItemsLengthErrorKind>,
) -> (res: UseCaseResult<Vec<I>, FormAnswerItemsError>)
    ensures
        crate::flow::list_outcome(res) == answer_items_outcome(items@, length),
        answer_items_internal(items@) matches Some(e)
            ==> res == Err::<Vec<I>, UseCaseError<FormAnswerItemsError>>(UseCaseError::Internal(e)),
{
    to_form_answer_items(items, length)
}

/// Each refusal of the parts of an answer item is reported under its own
/// name: two different refusals of one part are never reported alike, nor
/// refusals of different parts; a refused number of items is never taken for
/// an invalid item, and too few items never for too many.
pub proof fn lemma_answer_item_refusals_distinct(
    c1: CheckedIdsErrorKind,
    c2: CheckedIdsErrorKind,
    r1: RowAnswersErrorKind,
    r2: RowAnswersErrorKind,
    s1: SharingAnswersErrorKind,
    s2: SharingAnswersErrorKind,
    l1: AnswerItemsLengthErrorKind,
    l2: AnswerItemsLengthErrorKind,
)
    ensures
        FormAnswerItemError::checks_error_of(c1) == FormAnswerItemError::checks_error_of(c2) ==> c1 == c2,
        FormAnswerItemError::row_answers_error_of(r1) == FormAnswerItemError::row_answers_error_of(r2) ==> r1 == r2,
        FormAnswerItemError::sharing_answers_error_of(s1) == FormAnswerItemError::sharing_answers_error_of(s2) ==> s1 == s2,
        FormAnswerItemError::checks_error_of(c1) != FormAnswerItemError::row_answers_error_of(r1),
        FormAnswerItemError::checks_error_of(c1) != FormAnswerItemError::sharing_answers_error_of(s1),
        FormAnswerItemError::row_answers_error_of(r1) != FormAnswerItemError::sharing_answers_error_of(s1),
        FormAnswerItemsError::items_error_of(l1) == FormAnswerItemsError::items_error_of(l2) ==> l1 == l2,
        !(FormAnswerItemsError::items_error_of(l1) is InvalidItem),
{
}

} // verus!
