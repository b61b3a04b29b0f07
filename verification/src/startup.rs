//! The startup connector: bounded retry with a fixed ceiling.
//!
//! The store may start later than this process, so startup makes up to
//! a fixed number of connection attempts before giving up.  Exhausting
//! the ceiling is fatal: the process must not begin ticking.

use vstd::prelude::*;
use crate::errors::IndexError;

verus! {

/// Whether another connection attempt is allowed after `attempts_made`
/// failed ones.
pub fn may_retry(attempts_made: u64, ceiling: u64) -> (r: bool)
    ensures
        r == (attempts_made < ceiling),
{
    attempts_made < ceiling
}

/// The bounded startup retry, run against the would-be outcome of each
/// attempt: `outcomes[i]` says whether attempt `i` reaches the store.
///
/// Succeeds, with the index of the first successful attempt, exactly
/// when some attempt below the ceiling succeeds; when the store stays
/// unreachable for the whole ceiling the result is `StoreUnavailable`.
pub fn run_startup(outcomes: &Vec<bool>, ceiling: usize) -> (r: Result<usize, IndexError>)
    requires
        ceiling <= outcomes@.len(),
    ensures
        r is Ok <==> exists|i: int| 0 <= i < ceiling && outcomes@[i],
        r is Ok ==> {
            let k = r->Ok_0 as int;
            &&& 0 <= k < ceiling
            &&& outcomes@[k]
            &&& forall|j: int| 0 <= j < k ==> !outcomes@[j]
        },
        r is Err ==> r->Err_0 == IndexError::StoreUnavailable,
{
    let mut i: usize = 0;
    while i < ceiling
        invariant
            ceiling <= outcomes@.len(),
            0 <= i <= ceiling,
            forall|j: int| 0 <= j < i ==> !outcomes@[j],
        decreases ceiling - i,
    {
        if outcomes[i] {
            return Ok(i);
        }
        i = i + 1;
    }
    Err(IndexError::StoreUnavailable)
}

} // verus!
