//! Getting the logged-in user.
use vstd::prelude::*;

use crate::error::UseCaseResult;

verus! {

/// Gives the logged-in user.
pub fn run<U>(login_user: U) -> (res: UseCaseResult<U, std::convert::Infallible>)
    ensures
        res == Ok::<U, crate::error::UseCaseError<std::convert::Infallible>>(login_user),
{
    Ok(login_user)
}

} // verus!
