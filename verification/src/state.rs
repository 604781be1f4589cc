//! The life of a pool.
//!
//! A pool that has not been set up has no settings. Setting it up creates
//! the settings without a share token: the share token is created by the
//! same request and announces itself afterwards, once. From then on the
//! pool is active, and stays so. The halt flag is apart from this: it stops
//! deposits, swaps and withdrawals without changing the state.

use crate::error::PoolError;
use crate::msg::{Config, ConfigView};
use vstd::prelude::*;

verus! {

/// Where a pool is in its life.
#[derive(Clone, Copy, Debug, PartialEq, Eq, Structural)]
pub enum Lifecycle {
    /// There are no settings yet.
    Uninitialized,
    /// The settings exist; the share token has not announced itself.
    AwaitingShareTokenBinding,
    /// The share token is known.
    Active,
}

/// The state of a pool with these settings, or without any.
pub open spec fn lifecycle_of(config: Option<ConfigView>) -> Lifecycle {
    match config {
        None => Lifecycle::Uninitialized,
        Some(c) => if c.lp_token_address.len() == 0 {
            Lifecycle::AwaitingShareTokenBinding
        } else {
            Lifecycle::Active
        },
    }
}

/// The fee is a part of the whole: the denominator is not zero and the
/// numerator is not above it.
pub open spec fn fee_wf(swap_fee_nom: u128, swap_fee_denom: u128) -> bool {
    swap_fee_denom != 0 && swap_fee_nom <= swap_fee_denom
}

/// What `check_fee` returns.
pub open spec fn check_fee_spec(swap_fee_nom: u128, swap_fee_denom: u128) -> Result<(), PoolError> {
    if fee_wf(swap_fee_nom, swap_fee_denom) {
        Ok(())
    } else {
        Err(PoolError::ArithmeticError)
    }
}

/// Accepts a fee whose denominator is not zero and whose numerator is not
/// above the denominator; any other fails with `ArithmeticError`.
pub fn check_fee(swap_fee_nom: u128, swap_fee_denom: u128) -> (r: Result<(), PoolError>)
    ensures
        r == check_fee_spec(swap_fee_nom, swap_fee_denom),
{
    if swap_fee_denom == 0 {
        return Err(PoolError::ArithmeticError);
    }
    if swap_fee_nom > swap_fee_denom {
        return Err(PoolError::ArithmeticError);
    }
    Ok(())
}

impl Config {
    /// The state of a pool with these settings.
    pub fn lifecycle(&self) -> (r: Lifecycle)
        ensures
            r == lifecycle_of(Some(self@)),
            r != Lifecycle::Uninitialized,
    {
        if self.lp_token_address.as_str().is_empty() {
            Lifecycle::AwaitingShareTokenBinding
        } else {
            Lifecycle::Active
        }
    }
}

} // verus!
