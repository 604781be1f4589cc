//! The ways in which a request to the pool can fail.

use vstd::prelude::*;

verus! {

/// Why a request was refused. Every error ends the request; nothing is
/// changed when one is returned.
#[derive(Clone, Copy, Debug, PartialEq, Eq, Structural)]
pub enum PoolError {
    /// A token that the pool does not hold was named.
    UnsupportedToken,
    /// A token reports more than 18 decimals.
    PrecisionExceeded,
    /// A product does not fit in 128 bits.
    ArithmeticOverflow,
    /// A quotient is undefined or does not fit: a zero total supply, a zero
    /// fee denominator, a fee factor above one.
    ArithmeticError,
    /// A lifecycle step was taken out of order or by the wrong caller.
    PermissionDenied,
    /// The pool is halted.
    PoolHalted,
    /// The share token does not publish its total supply.
    SupplyUnavailable,
}

} // verus!
