//! Conversion of amounts between decimal precisions.
//!
//! A token states its amounts in units of `10^-decimals`. Two amounts can be
//! added or compared only at the same precision; the canonical one has 18
//! decimals. Scaling up multiplies by a power of ten and fails when the
//! product leaves 128 bits; scaling down divides and drops the remainder.

use crate::error::PoolError;
use vstd::arithmetic::div_mod::{lemma_div_by_multiple, lemma_div_is_ordered};
use vstd::arithmetic::mul::lemma_mul_inequality;
use vstd::prelude::*;

verus! {

/// The number of decimals of the canonical scale, and the most a token may
/// have.
pub const CANONICAL_DECIMALS: u8 = 18;

/// `10^e`.
pub open spec fn pow10(e: nat) -> nat
    decreases e,
{
    if e == 0 {
        1
    } else {
        10 * pow10((e - 1) as nat)
    }
}

/// A power of ten is at least one.
pub proof fn lemma_pow10_positive(e: nat)
    ensures
        pow10(e) >= 1,
    decreases e,
{
    if e > 0 {
        lemma_pow10_positive((e - 1) as nat);
    }
}

/// Up to the eighteenth, a power of ten is at most `10^18`.
pub proof fn lemma_pow10_bounded(e: nat)
    requires
        e <= 18,
    ensures
        pow10(e) <= 1_000_000_000_000_000_000,
    decreases 18 - e,
{
    if e == 18 {
        reveal_with_fuel(pow10, 19);
    } else {
        lemma_pow10_bounded(e + 1);
    }
}

/// `10^e` for an exponent up to 18.
pub fn power_of_ten(e: u8) -> (r: u128)
    requires
        e <= CANONICAL_DECIMALS,
    ensures
        r == pow10(e as nat),
{
    let mut r: u128 = 1;
    let mut i: u8 = 0;
    while i < e
        invariant
            i <= e <= 18,
            r == pow10(i as nat),
        decreases e - i,
    {
        proof {
            lemma_pow10_bounded((i + 1) as nat);
        }
        r = r * 10;
        i = i + 1;
    }
    r
}

/// What `convert_decimals` returns: `amount` restated from `from` decimals
/// in `to` decimals.
pub open spec fn convert_decimals_spec(amount: u128, from: u8, to: u8) -> Result<u128, PoolError> {
    if from > to {
        Ok(((amount as nat) / pow10((from - to) as nat)) as u128)
    } else if amount * pow10((to - from) as nat) <= u128::MAX {
        Ok((amount * pow10((to - from) as nat)) as u128)
    } else {
        Err(PoolError::ArithmeticOverflow)
    }
}

/// Restates an amount of a token with `from_decimals` decimals in the units
/// of a token with `to_decimals` decimals.
///
/// With more decimals at the destination the amount is multiplied by
/// `10^(to - from)`, and the call fails with `ArithmeticOverflow` when the
/// product does not fit. With fewer it is divided by `10^(from - to)` and
/// the remainder is dropped.
pub fn convert_decimals(amount: u128, from_decimals: u8, to_decimals: u8) -> (r: Result<
    u128,
    PoolError,
>)
    requires
        from_decimals <= CANONICAL_DECIMALS,
        to_decimals <= CANONICAL_DECIMALS,
    ensures
        r == convert_decimals_spec(amount, from_decimals, to_decimals),
{
    if from_decimals > to_decimals {
        let factor = power_of_ten(from_decimals - to_decimals);
        proof {
            lemma_pow10_positive((from_decimals - to_decimals) as nat);
        }
        Ok(amount / factor)
    } else {
        let factor = power_of_ten(to_decimals - from_decimals);
        match amount.checked_mul(factor) {
            Some(scaled) => Ok(scaled),
            None => Err(PoolError::ArithmeticOverflow),
        }
    }
}

/// What `to_canonical` returns.
pub open spec fn to_canonical_spec(amount: u128, token_decimals: u8) -> Result<u128, PoolError> {
    convert_decimals_spec(amount, token_decimals, CANONICAL_DECIMALS)
}

/// What `from_canonical` returns.
pub open spec fn from_canonical_spec(amount: u128, token_decimals: u8) -> u128 {
    ((amount as nat) / pow10((CANONICAL_DECIMALS - token_decimals) as nat)) as u128
}

/// Restates an amount of a token with `token_decimals` decimals at the
/// canonical scale: multiplies it by `10^(18 - token_decimals)`. Fails with
/// `ArithmeticOverflow` when the product does not fit in 128 bits.
pub fn to_canonical(amount: u128, token_decimals: u8) -> (r: Result<u128, PoolError>)
    requires
        token_decimals <= CANONICAL_DECIMALS,
    ensures
        r == to_canonical_spec(amount, token_decimals),
        r is Ok <==> amount * pow10((18 - token_decimals) as nat) <= u128::MAX,
        r is Ok ==> r->Ok_0 == amount * pow10((18 - token_decimals) as nat),
        r is Err ==> r->Err_0 == PoolError::ArithmeticOverflow,
{
    convert_decimals(amount, token_decimals, CANONICAL_DECIMALS)
}

/// Restates a canonical amount in the units of a token with `token_decimals`
/// decimals: divides it by `10^(18 - token_decimals)` and drops the
/// remainder.
pub fn from_canonical(amount: u128, token_decimals: u8) -> (r: u128)
    requires
        token_decimals <= CANONICAL_DECIMALS,
    ensures
        r == from_canonical_spec(amount, token_decimals),
        r == (amount as nat) / pow10((18 - token_decimals) as nat),
{
    let factor = power_of_ten(CANONICAL_DECIMALS - token_decimals);
    proof {
        lemma_pow10_positive((CANONICAL_DECIMALS - token_decimals) as nat);
    }
    amount / factor
}

/// An amount that was brought to the canonical scale without overflow comes
/// back unchanged.
pub proof fn canonical_round_trip(x: u128, d: u8)
    requires
        d <= CANONICAL_DECIMALS,
        to_canonical_spec(x, d) is Ok,
    ensures
        from_canonical_spec(to_canonical_spec(x, d)->Ok_0, d) == x,
{
    let factor = pow10((18 - d) as nat);
    lemma_pow10_positive((18 - d) as nat);
    lemma_div_by_multiple(x as int, factor as int);
}

/// Conversion keeps the order of amounts: where the larger amount can be
/// converted, so can the smaller, and to no more.
pub proof fn convert_decimals_monotone(low: u128, high: u128, from: u8, to: u8)
    requires
        low <= high,
        convert_decimals_spec(high, from, to) is Ok,
    ensures
        convert_decimals_spec(low, from, to) is Ok,
        convert_decimals_spec(low, from, to)->Ok_0 <= convert_decimals_spec(high, from, to)->Ok_0,
{
    if from > to {
        let factor = pow10((from - to) as nat);
        lemma_pow10_positive((from - to) as nat);
        lemma_div_is_ordered(low as int, high as int, factor as int);
    } else {
        let factor = pow10((to - from) as nat);
        lemma_mul_inequality(low as int, high as int, factor as int);
    }
}

} // verus!
