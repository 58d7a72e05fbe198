//! The answers an operation gets from the repositories and from the entity
//! checks, and the decisions that every operation takes on them alike.
use vstd::prelude::*;

use crate::domain::ToWitnessErrorKind;
use crate::error::{fails_with, outcome, Outcome, UseCaseError, UseCaseResult};

verus! {

/// An entity a repository returned, with whether the entity layer lets the
/// logged-in user see it.
pub struct Found<T> {
    pub entity: T,
    pub visible: bool,
}

/// A file sharing the repository found, with its file: whether the sharing
/// grants access in the requested scope (and why not), and the file with
/// whether the user may see it through the sharing.
pub struct SharedFile<F> {
    pub witness: Result<(), ToWitnessErrorKind>,
    pub file: Found<F>,
}

/// The outcome of an entity that the repository must hold: an internal
/// failure where it is missing or the user may not see it.
pub open spec fn require_outcome<T, E>(found: Option<Found<T>>) -> Outcome<T, E> {
    match found {
        None => Outcome::Failed,
        Some(f) => if f.visible { Outcome::Done(f.entity) } else { Outcome::Failed },
    }
}

/// Gives an entity that the repository must hold and the user see, and
/// fails internally otherwise.
pub fn require_visible<T, E>(found: Option<Found<T>>) -> (res: UseCaseResult<T, E>)
    ensures
        outcome(res) == require_outcome::<T, E>(found),
        found is None ==> fails_with(res, "The repository holds no entity the data refers to"@),
        found matches Some(f) && !f.visible ==> fails_with(res, "Condition failed: the entity is visible"@),
{
    match found {
        None => Err(UseCaseError::Internal(crate::error::internal_error("The repository holds no entity the data refers to"))),
        Some(f) => {
            if f.visible {
                Ok(f.entity)
            } else {
                Err(UseCaseError::Internal(crate::error::internal_error("Condition failed: the entity is visible")))
            }
        },
    }
}

/// A part of an input, by its key, with what deciding on it gave.
pub struct Keyed<K, I, E> {
    pub key: K,
    pub result: UseCaseResult<I, E>,
}

/// The outcome of deciding on the parts of an input in order: the first part
/// refused decides, with its key; an internal failure fails.
pub open spec fn keyed_outcome<K, I, E>(parts: Seq<Keyed<K, I, E>>) -> Outcome<Seq<I>, (K, E)>
    decreases parts.len(),
{
    if parts.len() == 0 {
        Outcome::Done(seq![])
    } else {
        match outcome(parts[0].result) {
            Outcome::Refused(e) => Outcome::Refused((parts[0].key, e)),
            Outcome::Failed => Outcome::Failed,
            Outcome::Done(v) => match keyed_outcome(parts.drop_first()) {
                Outcome::Done(rest) => Outcome::Done(seq![v] + rest),
                other => other,
            },
        }
    }
}

/// An outcome with values put before the values it gives.
pub open spec fn prefixed<T, E>(prefix: Seq<T>, o: Outcome<Seq<T>, E>) -> Outcome<Seq<T>, E> {
    match o {
        Outcome::Done(rest) => Outcome::Done(prefix + rest),
        other => other,
    }
}

pub(crate) proof fn lemma_prefixed_push<T, E>(prefix: Seq<T>, v: T, o: Outcome<Seq<T>, E>)
    ensures
        prefixed(prefix, match o {
            Outcome::Done(rest) => Outcome::Done(seq![v] + rest),
            other => other,
        }) == prefixed(prefix.push(v), o),
{
    match o {
        Outcome::Done(rest) => {
            assert(prefix + (seq![v] + rest) =~= prefix.push(v) + rest);
        },
        _ => {},
    }
}

/// The outcome of a result that holds a list and a refusal with a key.
pub open spec fn keyed_list_outcome<K, I, E>(res: Result<Vec<I>, UseCaseError<(K, E)>>) -> Outcome<Seq<I>, (K, E)> {
    match res {
        Ok(v) => Outcome::Done(v@),
        Err(UseCaseError::UseCase(e)) => Outcome::Refused(e),
        Err(UseCaseError::Internal(_)) => Outcome::Failed,
    }
}

/// The internal error of the first part not taken, where that part failed
/// internally.
pub open spec fn keyed_internal<K, I, E>(parts: Seq<Keyed<K, I, E>>) -> Option<crate::error::InternalError>
    decreases parts.len(),
{
    if parts.len() == 0 {
        None
    } else {
        match parts[0].result {
            Ok(_) => keyed_internal(parts.drop_first()),
            Err(UseCaseError::UseCase(_)) => None,
            Err(UseCaseError::Internal(e)) => Some(e),
        }
    }
}

/// Decides on the parts of an input in order, stopping at the first part
/// refused or failed.
pub fn decide_keyed<K, I, E>(parts: Vec<Keyed<K, I, E>>) -> (res: Result<Vec<I>, UseCaseError<(K, E)>>)
    ensures
        keyed_list_outcome(res) == keyed_outcome(parts@),
        keyed_internal(parts@) matches Some(e) ==> res == Err::<Vec<I>, UseCaseError<(K, E)>>(UseCaseError::Internal(e)),
{
    let ghost all = parts@;
    let mut rest = parts;
    let mut out: Vec<I> = Vec::new();
    let mut i: usize = 0;
    assert(all.skip(0) =~= all);
    assert(prefixed(Seq::<I>::empty(), keyed_outcome(all)) == keyed_outcome(all)) by {
        match keyed_outcome(all) {
            Outcome::Done(r) => { assert(Seq::<I>::empty() + r =~= r); },
            _ => {},
        }
    }
    while rest.len() > 0
        invariant
            all == parts@,
            all.len() == parts.len(),
            i + rest.len() == all.len(),
            rest@ =~= all.skip(i as int),
            keyed_outcome(all) == prefixed(out@, keyed_outcome(all.skip(i as int))),
            keyed_internal(all) == keyed_internal(all.skip(i as int)),
        decreases rest.len(),
    {
        assert(all.skip(i as int).drop_first() =~= all.skip(i + 1));
        assert(all.skip(i as int)[0] == all[i as int]);
        let p = rest.remove(0);
        assert(p == all[i as int]);
        match p.result {
            Ok(v) => {
                let ghost prev = out@;
                out.push(v);
                proof {
                    lemma_prefixed_push(prev, v, keyed_outcome(all.skip(i + 1)));
                }
            },
            Err(UseCaseError::UseCase(e)) => {
                return Err(UseCaseError::UseCase((p.key, e)));
            },
            Err(UseCaseError::Internal(e)) => {
                return Err(UseCaseError::Internal(e));
            },
        }
        i = i + 1;
    }
    assert(all.skip(i as int) =~= Seq::<Keyed<K, I, E>>::empty());
    assert(out@ + Seq::<I>::empty() =~= out@);
    Ok(out)
}

/// Whether every part of an input was taken.
pub open spec fn all_taken<K, I, E>(parts: Seq<Keyed<K, I, E>>) -> bool {
    forall|i: int| 0 <= i < parts.len() ==> (#[trigger] parts[i]).result is Ok
}

/// Deciding on the parts of an input gives their values exactly where every
/// part was taken.
pub proof fn lemma_keyed_done_iff_all_taken<K, I, E>(parts: Seq<Keyed<K, I, E>>)
    ensures
        (keyed_outcome(parts) is Done) <==> all_taken(parts),
    decreases parts.len(),
{
    if parts.len() > 0 {
        let rest = parts.drop_first();
        lemma_keyed_done_iff_all_taken(rest);
        assert(all_taken(parts) <==> (parts[0].result is Ok && all_taken(rest))) by {
            if parts[0].result is Ok && all_taken(rest) {
                assert forall|i: int| 0 <= i < parts.len() implies (#[trigger] parts[i]).result is Ok by {
                    if i > 0 {
                        assert(rest[i - 1] == parts[i]);
                    }
                }
            }
            if all_taken(parts) {
                assert(parts[0].result is Ok);
                assert forall|i: int| 0 <= i < rest.len() implies (#[trigger] rest[i]).result is Ok by {
                    assert(rest[i] == parts[i + 1]);
                }
            }
        }
        match parts[0].result {
            Ok(v) => {
                assert(outcome(parts[0].result) == Outcome::<I, E>::Done(v));
            },
            Err(UseCaseError::UseCase(e)) => {
                assert(outcome(parts[0].result) == Outcome::<I, E>::Refused(e));
            },
            Err(UseCaseError::Internal(_)) => {
                assert(outcome(parts[0].result) == Outcome::<I, E>::Failed);
            },
        }
    }
}

/// Checks whether every part of an input was taken.
pub fn check_all_taken<K, I, E>(parts: &Vec<Keyed<K, I, E>>) -> (res: bool)
    ensures
        res == (keyed_outcome(parts@) is Done),
{
    proof { lemma_keyed_done_iff_all_taken(parts@); }
    let mut i: usize = 0;
    while i < parts.len()
        invariant
            i <= parts.len(),
            forall|j: int| 0 <= j < i ==> (#[trigger] parts@[j]).result is Ok,
            (keyed_outcome(parts@) is Done) <==> all_taken(parts@),
        decreases parts.len() - i,
    {
        if parts[i].result.is_err() {
            assert(!((parts@[i as int]).result is Ok));
            return false;
        }
        i = i + 1;
    }
    assert(all_taken(parts@));
    true
}

/// The error of the first result that failed.
pub open spec fn first_error<T, E>(results: Seq<Result<T, E>>) -> Option<E>
    decreases results.len(),
{
    if results.len() == 0 {
        None
    } else {
        match results[0] {
            Err(e) => Some(e),
            Ok(_) => first_error(results.drop_first()),
        }
    }
}

/// The values of results none of which failed.
pub open spec fn ok_values<T, E>(results: Seq<Result<T, E>>) -> Seq<T> {
    results.map_values(|r: Result<T, E>| r->Ok_0)
}

/// Where no result failed, each result holds a value.
pub proof fn lemma_no_error_all_ok<T, E>(results: Seq<Result<T, E>>, i: int)
    requires
        first_error(results) is None,
        0 <= i < results.len(),
    ensures
        results[i] is Ok,
    decreases results.len(),
{
    if i > 0 {
        assert(results.drop_first()[i - 1] == results[i]);
        lemma_no_error_all_ok(results.drop_first(), i - 1);
    }
}

/// Takes the values of results in order, stopping at the first failure.
pub fn collect_results<T, E>(results: Vec<Result<T, E>>) -> (res: Result<Vec<T>, E>)
    ensures
        match first_error(results@) {
            Some(e) => res == Err::<Vec<T>, E>(e),
            None => res matches Ok(v) && v@ == ok_values(results@),
        },
{
    let ghost all = results@;
    let mut rest = results;
    let mut out: Vec<T> = Vec::new();
    let mut i: usize = 0;
    assert(all.skip(0) =~= all);
    while rest.len() > 0
        invariant
            all == results@,
            all.len() == results.len(),
            i + rest.len() == all.len(),
            rest@ =~= all.skip(i as int),
            first_error(all) == first_error(all.skip(i as int)),
            out@ =~= ok_values(all.take(i as int)),
        decreases rest.len(),
    {
        assert(all.skip(i as int).drop_first() =~= all.skip(i + 1));
        let r = rest.remove(0);
        assert(r == all[i as int]);
        match r {
            Err(e) => {
                return Err(e);
            },
            Ok(v) => {
                out.push(v);
            },
        }
        assert(all.take(i + 1) =~= all.take(i as int).push(all[i as int]));
        i = i + 1;
    }
    assert(all.take(i as int) =~= all);
    Ok(out)
}

/// The entity of a lookup, where there is one and the user may see it.
pub open spec fn visible_entity<T>(found: Option<Found<T>>) -> Option<T> {
    match found {
        Some(f) => if f.visible { Some(f.entity) } else { None },
        None => None,
    }
}

/// The outcome of taking a looked-up entity: the entity where it exists and
/// is visible, otherwise the given refusal. An entity the user may not see is
/// refused exactly as one that does not exist.
pub open spec fn take_visible_outcome<T, E>(found: Option<Found<T>>, err: E) -> Outcome<T, E> {
    match visible_entity(found) {
        Some(t) => Outcome::Done(t),
        None => Outcome::Refused(err),
    }
}

/// An entity the user may not see is answered exactly as one that does not
/// exist: nothing tells the user that it is there.
pub proof fn lemma_hidden_as_absent<T, E>(entity: T, err: E)
    ensures
        take_visible_outcome(Some(Found { entity, visible: false }), err) == take_visible_outcome::<T, E>(None, err),
        take_visible_outcome::<T, E>(None, err) == Outcome::<T, E>::Refused(err),
{
}

/// Once a result has failed, what follows it changes nothing: the first
/// failure decides.
pub proof fn lemma_first_error_decides<T, E>(results: Seq<Result<T, E>>, more: Seq<Result<T, E>>)
    requires
        first_error(results) is Some,
    ensures
        first_error(results + more) == first_error(results),
    decreases results.len(),
{
    assert((results + more)[0] == results[0]);
    if results[0] is Ok {
        assert((results + more).drop_first() =~= results.drop_first() + more);
        lemma_first_error_decides(results.drop_first(), more);
    }
}

/// Takes a looked-up entity where it exists and is visible to the user.
pub fn take_visible<T, E>(found: Option<Found<T>>, err: E) -> (res: UseCaseResult<T, E>)
    ensures
        outcome(res) == take_visible_outcome(found, err),
{
    match found {
        Some(f) => {
            if f.visible {
                Ok(f.entity)
            } else {
                Err(UseCaseError::UseCase(err))
            }
        },
        None => Err(UseCaseError::UseCase(err)),
    }
}

/// The outcome of taking a looked-up entity that the user is expected to see:
/// the given refusal where there is none, an internal failure where the user
/// may not see it.
pub open spec fn take_expected_visible_outcome<T, E>(found: Option<Found<T>>, err: E) -> Outcome<T, E> {
    match found {
        None => Outcome::Refused(err),
        Some(f) => if f.visible { Outcome::Done(f.entity) } else { Outcome::Failed },
    }
}

/// Takes a looked-up entity that the user is expected to see.
pub fn take_expected_visible<T, E>(found: Option<Found<T>>, err: E) -> (res: UseCaseResult<T, E>)
    ensures
        outcome(res) == take_expected_visible_outcome(found, err),
        found matches Some(f) && !f.visible ==> fails_with(res, "Condition failed: the entity is visible"@),
{
    match found {
        None => Err(UseCaseError::UseCase(err)),
        Some(f) => {
            if f.visible {
                Ok(f.entity)
            } else {
                Err(UseCaseError::Internal(crate::error::internal_error("Condition failed: the entity is visible")))
            }
        },
    }
}

/// The outcome of an entity the operation itself produced and that the user
/// is expected to see: it, or an internal failure.
pub open spec fn expect_visible_outcome<T, E>(f: Found<T>) -> Outcome<T, E> {
    if f.visible { Outcome::Done(f.entity) } else { Outcome::Failed }
}

/// Gives an entity the user is expected to see, and fails internally otherwise.
pub fn expect_visible<T, E>(f: Found<T>) -> (res: UseCaseResult<T, E>)
    ensures
        outcome(res) == expect_visible_outcome::<T, E>(f),
        !f.visible ==> fails_with(res, "Condition failed: the entity is visible"@),
{
    if f.visible {
        Ok(f.entity)
    } else {
        Err(UseCaseError::Internal(crate::error::internal_error("Condition failed: the entity is visible")))
    }
}

/// Whether every entity of a list is visible to the user.
pub open spec fn all_visible<T>(list: Seq<Found<T>>) -> bool {
    forall|i: int| 0 <= i < list.len() ==> #[trigger] list[i].visible
}

/// Checks that every entity of a list is visible to the user.
pub fn check_all_visible<T>(list: &Vec<Found<T>>) -> (res: bool)
    ensures
        res == all_visible(list@),
{
    let mut i: usize = 0;
    while i < list.len()
        invariant
            i <= list.len(),
            forall|j: int| 0 <= j < i ==> #[trigger] list@[j].visible,
        decreases list.len() - i,
    {
        if !list[i].visible {
            return false;
        }
        i = i + 1;
    }
    true
}

/// The entities of a list, in order.
pub open spec fn entities<T>(list: Seq<Found<T>>) -> Seq<T> {
    list.map_values(|f: Found<T>| f.entity)
}

/// The outcome of a list that the user is expected to see whole.
pub open spec fn all_entities_outcome<T, E>(list: Seq<Found<T>>) -> Outcome<Seq<T>, E> {
    if all_visible(list) { Outcome::Done(entities(list)) } else { Outcome::Failed }
}

/// The outcome of a result that holds a list, with the list taken by its contents.
pub open spec fn list_outcome<T, E>(res: UseCaseResult<Vec<T>, E>) -> Outcome<Seq<T>, E> {
    match res {
        Ok(v) => Outcome::Done(v@),
        Err(UseCaseError::UseCase(e)) => Outcome::Refused(e),
        Err(UseCaseError::Internal(_)) => Outcome::Failed,
    }
}

/// Gives the entities of a list where every one of them is visible to the
/// user, and fails internally otherwise.
pub fn all_entities<T, E>(list: Vec<Found<T>>) -> (res: UseCaseResult<Vec<T>, E>)
    ensures
        list_outcome(res) == all_entities_outcome::<T, E>(list@),
        all_visible(list@) ==> (res matches Ok(v) && v@ == entities(list@)),
        !all_visible(list@) ==> fails_with(res, "Condition failed: all entities are visible"@),
{
    if !check_all_visible(&list) {
        return Err(UseCaseError::Internal(crate::error::internal_error("Condition failed: all entities are visible")));
    }
    let ghost whole = list@;
    let mut rest = list;
    let mut out: Vec<T> = Vec::new();
    while rest.len() > 0
        invariant
            out@ + entities(rest@) =~= entities(whole),
        decreases rest.len(),
    {
        let ghost prev = rest@;
        let f = rest.remove(0);
        assert(entities(prev) =~= seq![f.entity] + entities(rest@));
        out.push(f.entity);
    }
    Ok(out)
}

} // verus!
