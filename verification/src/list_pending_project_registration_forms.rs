//! Listing the registration forms a pending project is to answer.
use vstd::prelude::*;

use crate::error::{outcome, Outcome, UseCaseResult};
use crate::flow::{
    all_entities, all_entities_outcome, list_outcome, take_visible, visible_entity, Found,
};

verus! {

#[derive(Debug, Clone, PartialEq, Eq, Structural)]
pub enum Error {
    NotFound,
}

/// The outcome of listing the registration forms of a pending project.
pub open spec fn run_outcome<P, F>(pending_project: Option<Found<P>>, forms: Seq<Found<F>>) -> Outcome<Seq<F>, Error> {
    match visible_entity(pending_project) {
        None => Outcome::Refused(Error::NotFound),
        Some(_) => all_entities_outcome(forms),
    }
}

/// Gives the registration forms listed for a pending project, each visible
/// to the logged-in user with the pending project.
pub fn run<P, F>(pending_project: Option<Found<P>>, forms: Vec<Found<F>>) -> (res: UseCaseResult<Vec<F>, Error>)
    ensures
        list_outcome(res) == run_outcome(pending_project, forms@),
{
    take_visible(pending_project, Error::NotFound)?;
    all_entities(forms)
}

} // verus!
