use vstd::prelude::*;

verus! {

/// An unexpected failure, with a message that says what went wrong.
#[derive(Debug, Clone)]
pub struct InternalError {
    pub message: String,
}

/// An operation either fails for a reason that belongs to the operation
/// (`UseCase`) or for an unexpected internal reason (`Internal`).
#[derive(Debug)]
pub enum UseCaseError<E> {
    UseCase(E),
    Internal(InternalError),
}

pub type UseCaseResult<T, E> = Result<T, UseCaseError<E>>;

/// What an operation came to, with the internal error forgotten: it gave a
/// value, it refused for one of its own reasons, or it failed internally.
pub enum Outcome<T, E> {
    Done(T),
    Refused(E),
    Failed,
}

/// The outcome of a result.
pub open spec fn outcome<T, E>(res: UseCaseResult<T, E>) -> Outcome<T, E> {
    match res {
        Ok(t) => Outcome::Done(t),
        Err(UseCaseError::UseCase(e)) => Outcome::Refused(e),
        Err(UseCaseError::Internal(_)) => Outcome::Failed,
    }
}

/// What a result came to, with the value it gives left out: whether it gave
/// one, refused for one of its own reasons, or failed internally.
pub open spec fn verdict<T, E>(res: UseCaseResult<T, E>) -> Outcome<(), E> {
    match res {
        Ok(_) => Outcome::Done(()),
        Err(UseCaseError::UseCase(e)) => Outcome::Refused(e),
        Err(UseCaseError::Internal(_)) => Outcome::Failed,
    }
}

/// Whether an internal error handed in as `input` is the one handed out as
/// `res`.
pub open spec fn keeps_internal<X, F, T, E>(input: UseCaseResult<X, F>, res: UseCaseResult<T, E>) -> bool {
    input matches Err(UseCaseError::Internal(e)) ==> res == Err::<T, UseCaseError<E>>(UseCaseError::Internal(e))
}

/// Whether `res` is an internal failure with the message `message`.
pub open spec fn fails_with<T, E>(res: UseCaseResult<T, E>, message: Seq<char>) -> bool {
    res matches Err(UseCaseError::Internal(e)) && e.message@ == message
}

/// Builds an internal error that carries the given message.
pub fn internal_error(message: &str) -> (err: InternalError)
    ensures
        err.message@ == message@,
{
    InternalError { message: String::from_str(message) }
}

impl<T> UseCaseError<T> {
    /// Whether this is the operation-specific error `e`.
    pub open spec fn is_use_case_of(self, e: T) -> bool {
        self matches UseCaseError::UseCase(x) && x == e
    }

    /// The error with `f` applied to an operation-specific error.
    pub open spec fn mapped<U>(self, f: spec_fn(T) -> U) -> UseCaseError<U> {
        match self {
            UseCaseError::UseCase(e) => UseCaseError::UseCase(f(e)),
            UseCaseError::Internal(i) => UseCaseError::Internal(i),
        }
    }

    /// Whether `res` is what applying `op` to an operation-specific error, and
    /// keeping an internal error, may give.
    pub open spec fn mapped_by<U, F: FnOnce(T) -> U>(self, op: F, res: UseCaseError<U>) -> bool {
        match self {
            UseCaseError::UseCase(e) => res matches UseCaseError::UseCase(u) && op.ensures((e,), u),
            UseCaseError::Internal(i) => res == UseCaseError::<U>::Internal(i),
        }
    }

    /// Applies `op` to an operation-specific error and keeps an internal error as it is.
    pub fn map_use_case<U, F>(self, op: F) -> (res: UseCaseError<U>)
        where
            F: FnOnce(T) -> U,
        requires
            self matches UseCaseError::UseCase(e) ==> op.requires((e,)),
        ensures
            self.mapped_by(op, res),
            forall|f: spec_fn(T) -> U|
                (forall|x: T, y: U| op.ensures((x,), y) ==> y == f(x)) ==> #[trigger] self.mapped(f) == res,
    {
        match self {
            UseCaseError::UseCase(err) => UseCaseError::UseCase(op(err)),
            UseCaseError::Internal(err) => UseCaseError::Internal(err),
        }
    }
}

/// Mapping with the identity gives the error back unchanged.
pub proof fn lemma_mapped_identity<T>(err: UseCaseError<T>)
    ensures
        err.mapped(|x: T| x) == err,
{
}

/// Mapping with `f` and then with `g` is mapping once with `g` after `f`.
pub proof fn lemma_mapped_compose<T, U, V>(err: UseCaseError<T>, f: spec_fn(T) -> U, g: spec_fn(U) -> V)
    ensures
        err.mapped(f).mapped(g) == err.mapped(|x: T| g(f(x))),
{
}

/// Mapping with `f` and then with `g` gives what mapping once with `h`, which
/// is `g` after `f`, gives, where `f` and `g` give one result for each
/// argument: stated of the results of `map_use_case` itself.
pub proof fn lemma_map_use_case_compose<T, U, V, F: FnOnce(T) -> U, G: FnOnce(U) -> V, H: FnOnce(T) -> V>(
    err: UseCaseError<T>,
    f: F,
    g: G,
    h: H,
    once_f: UseCaseError<U>,
    then_g: UseCaseError<V>,
    once_h: UseCaseError<V>,
)
    requires
        forall|t: T, u1: U, u2: U| f.ensures((t,), u1) && f.ensures((t,), u2) ==> u1 == u2,
        forall|u: U, v1: V, v2: V| g.ensures((u,), v1) && g.ensures((u,), v2) ==> v1 == v2,
        forall|t: T, v: V| #[trigger] h.ensures((t,), v) ==> exists|u: U| f.ensures((t,), u) && g.ensures((u,), v),
        err.mapped_by(f, once_f),
        once_f.mapped_by(g, then_g),
        err.mapped_by(h, once_h),
    ensures
        then_g == once_h,
{
    match err {
        UseCaseError::UseCase(e) => {
            let u1 = once_f->UseCase_0;
            let v1 = then_g->UseCase_0;
            let v2 = once_h->UseCase_0;
            let u = choose|u: U| f.ensures((e,), u) && g.ensures((u,), v2);
            assert(u == u1);
            assert(v1 == v2);
        },
        UseCaseError::Internal(_) => {},
    }
}

/// Refuses with an operation-specific error.
pub fn refuse<T, E>(err: E) -> (res: UseCaseResult<T, E>)
    ensures
        outcome(res) == Outcome::<T, E>::Refused(err),
{
    Err(UseCaseError::UseCase(err))
}

/// Fails internally where a condition that the operation relies on does not hold.
pub fn ensure<E>(cond: bool, message: &str) -> (res: UseCaseResult<(), E>)
    ensures
        outcome(res) == (if cond { Outcome::<(), E>::Done(()) } else { Outcome::Failed }),
        !cond ==> fails_with(res, message@),
{
    if cond {
        Ok(())
    } else {
        Err(UseCaseError::Internal(internal_error(message)))
    }
}

} // verus!
