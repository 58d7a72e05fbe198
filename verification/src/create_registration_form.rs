//! Creating a registration form.
use vstd::prelude::*;

use crate::error::{outcome, Outcome, UseCaseError, UseCaseResult};
use crate::flow::Found;
use crate::model::{Creation, RegistrationFormId, UserId};
use crate::interface::form::FormItemsError;
use crate::interface::project_query::ProjectQueryError;

verus! {

#[derive(Debug, Clone, Copy, PartialEq, Eq, Structural)]
pub enum Error {
    InvalidName,
    InvalidDescription,
    InvalidItems(FormItemsError),
    InvalidQuery(ProjectQueryError),
    InsufficientPermissions,
    AlreadyStartedProjectCreationPeriod,
}

impl Error {
    pub fn from_permissions_error() -> (res: Self)
        ensures
            res == Error::InsufficientPermissions,
    {
        Error::InsufficientPermissions
    }

    pub fn from_name_error() -> (res: Self)
        ensures
            res == Error::InvalidName,
    {
        Error::InvalidName
    }

    pub fn from_description_error() -> (res: Self)
        ensures
            res == Error::InvalidDescription,
    {
        Error::InvalidDescription
    }

    pub fn from_items_error(err: FormItemsError) -> (res: Self)
        ensures
            res == Error::InvalidItems(err),
    {
        Error::InvalidItems(err)
    }

    pub fn from_query_error(err: ProjectQueryError) -> (res: Self)
        ensures
            res == Error::InvalidQuery(err),
    {
        Error::InvalidQuery(err)
    }
}

/// Whether the creation period has started for any category the query admits.
pub open spec fn any_started(started: Seq<bool>) -> bool {
    exists|i: int| 0 <= i < started.len() && #[trigger] started[i]
}

/// Checks whether the creation period has started for any category.
pub fn check_any_started(started: &Vec<bool>) -> (res: bool)
    ensures
        res == any_started(started@),
{
    let mut i: usize = 0;
    while i < started.len()
        invariant
            i <= started.len(),
            forall|j: int| 0 <= j < i ==> !#[trigger] started@[j],
        decreases started.len() - i,
    {
        if started[i] {
            return true;
        }
        i = i + 1;
    }
    false
}

/// A registration form as it is made.
#[derive(Debug, Clone)]
pub struct RegistrationForm<Q, I> {
    pub id: RegistrationFormId,
    pub created_at: i64,
    pub author_id: UserId,
    pub name: String,
    pub description: String,
    pub items: I,
    pub query: Q,
}

/// The registration form made: the identifier, time and author of its
/// creation, and the name, description, items and query given.
pub open spec fn registration_form_made<Q, I>(
    creation: Creation<RegistrationFormId>,
    name: String,
    description: String,
    items: I,
    query: Q,
) -> RegistrationForm<Q, I> {
    RegistrationForm {
        id: creation.id,
        created_at: creation.created_at,
        author_id: creation.author_id,
        name,
        description,
        items,
        query,
    }
}

/// The outcome of creating a registration form: the form made of the
/// decided query and items, where the user may see it.
pub open spec fn run_outcome<Q, I>(
    may_create: bool,
    query: Result<Q, ProjectQueryError>,
    period_started: Seq<bool>,
    name: String,
    name_accepted: bool,
    description: String,
    description_accepted: bool,
    items: Result<I, FormItemsError>,
    creation: Creation<RegistrationFormId>,
    visible: bool,
) -> Outcome<RegistrationForm<Q, I>, Error> {
    if !may_create {
        Outcome::Refused(Error::InsufficientPermissions)
    } else {
        match query {
            Err(e) => Outcome::Refused(Error::InvalidQuery(e)),
            Ok(q) => if any_started(period_started) {
                Outcome::Refused(Error::AlreadyStartedProjectCreationPeriod)
            } else if !name_accepted {
                Outcome::Refused(Error::InvalidName)
            } else if !description_accepted {
                Outcome::Refused(Error::InvalidDescription)
            } else {
                match items {
                    Err(e) => Outcome::Refused(Error::InvalidItems(e)),
                    Ok(i) => if visible {
                        Outcome::Done(registration_form_made(creation, name, description, i, q))
                    } else {
                        Outcome::Failed
                    },
                }
            },
        }
    }
}

/// Creates a registration form, given whether the user holds the permission
/// to create registration forms, the query as decided, for each category the
/// query admits whether its project creation period has started, the name
/// and description with the entity layer's verdicts on them, the items as
/// decided, the identifier, time and author of the new form, and whether the
/// user may see the form made.
pub fn run<Q, I>(
    may_create: bool,
    query: Result<Q, ProjectQueryError>,
    period_started: Vec<bool>,
    name: String,
    name_accepted: bool,
    description: String,
    description_accepted: bool,
    items: Result<I, FormItemsError>,
    creation: Creation<RegistrationFormId>,
    visible: bool,
) -> (res: UseCaseResult<RegistrationForm<Q, I>, Error>)
    ensures
        outcome(res) == run_outcome(
            may_create,
            query,
            period_started@,
            name,
            name_accepted,
            description,
            description_accepted,
            items,
            creation,
            visible,
        ),
{
    if !may_create {
        return Err(UseCaseError::UseCase(Error::from_permissions_error()));
    }
    let query = match query {
        Ok(q) => q,
        Err(e) => return Err(UseCaseError::UseCase(Error::from_query_error(e))),
    };
    if check_any_started(&period_started) {
        return Err(UseCaseError::UseCase(Error::AlreadyStartedProjectCreationPeriod));
    }
    if !name_accepted {
        return Err(UseCaseError::UseCase(Error::from_name_error()));
    }
    if !description_accepted {
        return Err(UseCaseError::UseCase(Error::from_description_error()));
    }
    let items = match items {
        Ok(i) => i,
        Err(e) => return Err(UseCaseError::UseCase(Error::from_items_error(e))),
    };
    let form = RegistrationForm {
        id: creation.id,
        created_at: creation.created_at,
        author_id: creation.author_id,
        name,
        description,
        items,
        query,
    };
    crate::flow::expect_visible(Found { entity: form, visible })
}

/// A change that creating a registration form makes to the repositories.
#[derive(Debug, Clone, Copy, PartialEq, Eq, Structural)]
pub enum Effect {
    /// Store the registration form made.
    StoreRegistrationForm,
}

/// The changes creating a registration form makes: the form is stored where
/// the user may create it, the query is taken, no project creation period
/// the query admits has started, and the name, description and items are
/// accepted; its visibility is checked only after it is stored.
pub open spec fn registration_form_effects<Q, I>(
    may_create: bool,
    query: Result<Q, ProjectQueryError>,
    period_started: Seq<bool>,
    name_accepted: bool,
    description_accepted: bool,
    items: Result<I, FormItemsError>,
) -> Seq<Effect> {
    if may_create && query is Ok && !any_started(period_started) && name_accepted && description_accepted && items is Ok {
        seq![Effect::StoreRegistrationForm]
    } else {
        seq![]
    }
}

/// Gives the changes creating a registration form makes, from the same
/// answers `run` decides on.
pub fn effects<Q, I>(
    may_create: bool,
    query: &Result<Q, ProjectQueryError>,
    period_started: &Vec<bool>,
    name_accepted: bool,
    description_accepted: bool,
    items: &Result<I, FormItemsError>,
) -> (res: Vec<Effect>)
    ensures
        res@ == registration_form_effects(may_create, *query, period_started@, name_accepted, description_accepted, *items),
{
    let mut out: Vec<Effect> = Vec::new();
    if may_create && query.is_ok() && !check_any_started(period_started) && name_accepted && description_accepted && items.is_ok() {
        out.push(Effect::StoreRegistrationForm);
    }
    out
}

/// The registration form is stored exactly where creating it is not refused.
pub proof fn lemma_registration_form_stored_unless_refused<Q, I>(
    may_create: bool,
    query: Result<Q, ProjectQueryError>,
    period_started: Seq<bool>,
    name: String,
    name_accepted: bool,
    description: String,
    description_accepted: bool,
    items: Result<I, FormItemsError>,
    creation: Creation<RegistrationFormId>,
    visible: bool,
)
    ensures
        registration_form_effects(may_create, query, period_started, name_accepted, description_accepted, items).len() == 1
            <==> !(run_outcome(
                may_create,
                query,
                period_started,
                name,
                name_accepted,
                description,
                description_accepted,
                items,
                creation,
                visible,
            ) is Refused),
{
}

} // verus!
