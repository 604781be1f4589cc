//! What the pool makes of a token contract's report of itself.

use crate::error::PoolError;
use vstd::prelude::*;

verus! {

/// The total supply of a token from the supply that the token reports, which
/// it may keep to itself. Fails with `SupplyUnavailable` where it does.
pub fn query_token_total_supply(reported: Option<u128>) -> (r: Result<u128, PoolError>)
    ensures
        r == match reported {
            Some(supply) => Ok::<u128, PoolError>(supply),
            None => Err::<u128, PoolError>(PoolError::SupplyUnavailable),
        },
{
    match reported {
        Some(supply) => Ok(supply),
        None => Err(PoolError::SupplyUnavailable),
    }
}

} // verus!
