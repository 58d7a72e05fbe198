//! Listing the files distributed to a project.
use vstd::prelude::*;

use crate::error::{internal_error, outcome, Outcome, UseCaseError, UseCaseResult};
use crate::flow::{list_outcome, take_visible, visible_entity, Found};

verus! {

#[derive(Debug, Clone, PartialEq, Eq, Structural)]
pub enum Error {
    ProjectNotFound,
}

/// Whether the distribution gives the project a file the user may see.
pub open spec fn distributed_ok<X>(d: Option<Found<X>>) -> bool {
    d matches Some(f) && f.visible
}

/// The outcome of listing the files distributed to a project: each listed
/// distribution must give the project a file the user may see.
pub open spec fn run_outcome<P, X>(project: Option<Found<P>>, distributed: Seq<Option<Found<X>>>) -> Outcome<Seq<X>, Error> {
    match visible_entity(project) {
        None => Outcome::Refused(Error::ProjectNotFound),
        Some(_) => if forall|i: int| 0 <= i < distributed.len() ==> distributed_ok(#[trigger] distributed[i]) {
            Outcome::Done(distributed.map_values(|d: Option<Found<X>>| d->Some_0.entity))
        } else {
            Outcome::Failed
        },
    }
}

/// Gives the files distributed to a project, given the project and, for each
/// distribution listed for it, the file it gives the project.
pub fn run<P, X>(project: Option<Found<P>>, distributed: Vec<Option<Found<X>>>) -> (res: UseCaseResult<Vec<X>, Error>)
    ensures
        list_outcome(res) == run_outcome(project, distributed@),
{
    take_visible(project, Error::ProjectNotFound)?;
    assert(visible_entity(project) is Some);
    let ghost all = distributed@;
    let mut rest = distributed;
    let mut out: Vec<X> = Vec::new();
    let mut i: usize = 0;
    while rest.len() > 0
        invariant
            i + rest.len() == all.len(),
            all.len() == distributed.len(),
            visible_entity(project) is Some,
            all == distributed@,
            rest@ =~= all.skip(i as int),
            out@ =~= all.take(i as int).map_values(|d: Option<Found<X>>| d->Some_0.entity),
            forall|j: int| 0 <= j < i ==> distributed_ok(#[trigger] all[j]),
        decreases rest.len(),
    {
        let ghost prev = rest@;
        let d = rest.remove(0);
        assert(d == all[i as int]);
        match d {
            Some(f) => {
                if !f.visible {
                    assert(!distributed_ok(all[i as int]));
                    return Err(UseCaseError::Internal(internal_error("Condition failed: the distributed file is visible")));
                }
                out.push(f.entity);
            },
            None => {
                assert(!distributed_ok(all[i as int]));
                return Err(UseCaseError::Internal(internal_error("Failed to get distributed file from by_project list")));
            },
        }
        assert(all.take(i + 1) =~= all.take(i as int).push(all[i as int]));
        assert(rest@ =~= prev.drop_first());
        i = i + 1;
    }
    assert(all.take(i as int) =~= all);
    Ok(out)
}

} // verus!
