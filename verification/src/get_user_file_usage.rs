//! Getting how much file storage the logged-in user uses.
use vstd::prelude::*;

use crate::error::UseCaseResult;

verus! {

#[derive(Clone, Debug)]
pub struct Output {
    pub usage: u64,
    pub quota: Option<u64>,
}

/// Gives the number of bytes the user's files take and the user's quota
/// (`None` where it is unlimited).
pub fn run(usage: u64, quota: Option<u64>) -> (res: UseCaseResult<Output, std::convert::Infallible>)
    ensures
        res matches Ok(o) && o.usage == usage && o.quota == quota,
{
    Ok(Output { usage, quota })
}

} // verus!
