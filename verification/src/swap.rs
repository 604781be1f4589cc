//! The price of a swap.
//!
//! One unit of value of the source token buys one unit of value of the
//! destination token, less the fee: the amount is restated in the
//! destination's precision and then multiplied by the part that the
//! recipient keeps, `swap_fee_nom / swap_fee_denom`, rounded down.

use crate::decimal::{convert_decimals, convert_decimals_monotone, convert_decimals_spec};
use crate::error::PoolError;
use crate::msg::{views, Config, TokenInfo, TokenInfoView};
use crate::registry::{holds, lemma_lookup_wf, lookup, lookup_spec, registry_wf};
use crate::wide::{
    lemma_multiply_then_divide_monotone, multiply_then_divide, multiply_then_divide_spec,
};
use vstd::prelude::*;

verus! {

/// What `quote_swap` returns.
pub open spec fn quote_swap_spec(
    source: Seq<char>,
    destination: Seq<char>,
    source_amount: u128,
    registry: Seq<TokenInfoView>,
    fee_nom: u128,
    fee_denom: u128,
) -> Result<u128, PoolError> {
    if !holds(registry, source) || !holds(registry, destination) || source == destination {
        Err(PoolError::UnsupportedToken)
    } else {
        match convert_decimals_spec(
            source_amount,
            lookup_spec(registry, source)->0.decimals,
            lookup_spec(registry, destination)->0.decimals,
        ) {
            Err(e) => Err(e),
            Ok(converted) => match multiply_then_divide_spec(converted, fee_nom, fee_denom) {
                Some(kept) => Ok(kept),
                None => Err(PoolError::ArithmeticError),
            },
        }
    }
}

/// The amount of the destination token that `source_amount` of the source
/// token buys, in the destination token's precision.
///
/// Fails with `UnsupportedToken` unless the pool holds both tokens and they
/// differ. The amount is restated in the destination's decimals, which fails
/// with `ArithmeticOverflow` where scaling up leaves 128 bits, and then
/// multiplied by `swap_fee_nom` and divided by `swap_fee_denom`, rounding
/// down, which fails with `ArithmeticError` where the denominator is zero or
/// the result does not fit.
pub fn quote_swap(
    source_token: &String,
    destination_token: &String,
    source_amount: u128,
    registry: &Vec<TokenInfo>,
    fee_config: &Config,
) -> (r: Result<u128, PoolError>)
    requires
        registry_wf(views(registry@)),
    ensures
        r == quote_swap_spec(
            source_token@,
            destination_token@,
            source_amount,
            views(registry@),
            fee_config.swap_fee_nom,
            fee_config.swap_fee_denom,
        ),
{
    let source = match lookup(registry, source_token) {
        Some(info) => info,
        None => {
            return Err(PoolError::UnsupportedToken);
        },
    };
    let destination = match lookup(registry, destination_token) {
        Some(info) => info,
        None => {
            return Err(PoolError::UnsupportedToken);
        },
    };
    if *source_token == *destination_token {
        return Err(PoolError::UnsupportedToken);
    }
    proof {
        lemma_lookup_wf(views(registry@), source_token@);
        lemma_lookup_wf(views(registry@), destination_token@);
    }
    let converted = match convert_decimals(source_amount, source.decimals, destination.decimals) {
        Ok(converted) => converted,
        Err(e) => {
            return Err(e);
        },
    };
    match multiply_then_divide(converted, fee_config.swap_fee_nom, fee_config.swap_fee_denom) {
        Some(kept) => Ok(kept),
        None => Err(PoolError::ArithmeticError),
    }
}

/// A larger amount buys no less: where the quote for the larger amount
/// succeeds, the quote for the smaller succeeds and is no larger.
pub proof fn quote_swap_monotone(
    source: Seq<char>,
    destination: Seq<char>,
    low: u128,
    high: u128,
    registry: Seq<TokenInfoView>,
    fee_nom: u128,
    fee_denom: u128,
)
    requires
        low <= high,
        quote_swap_spec(source, destination, high, registry, fee_nom, fee_denom) is Ok,
    ensures
        quote_swap_spec(source, destination, low, registry, fee_nom, fee_denom) is Ok,
        quote_swap_spec(source, destination, low, registry, fee_nom, fee_denom)->Ok_0
            <= quote_swap_spec(source, destination, high, registry, fee_nom, fee_denom)->Ok_0,
{
    let from = lookup_spec(registry, source)->0.decimals;
    let to = lookup_spec(registry, destination)->0.decimals;
    convert_decimals_monotone(low, high, from, to);
    lemma_multiply_then_divide_monotone(
        convert_decimals_spec(low, from, to)->Ok_0,
        convert_decimals_spec(high, from, to)->Ok_0,
        fee_nom,
        fee_denom,
    );
}

/// With a fee factor of at most one the recipient is paid no more than the
/// converted amount, and the fee step cannot fail.
pub proof fn quote_swap_keeps_value(
    source: Seq<char>,
    destination: Seq<char>,
    source_amount: u128,
    registry: Seq<TokenInfoView>,
    fee_nom: u128,
    fee_denom: u128,
)
    requires
        fee_denom != 0,
        fee_nom <= fee_denom,
        holds(registry, source),
        holds(registry, destination),
        source != destination,
    ensures
        ({
            let converted = convert_decimals_spec(
                source_amount,
                lookup_spec(registry, source)->0.decimals,
                lookup_spec(registry, destination)->0.decimals,
            );
            let quote = quote_swap_spec(
                source,
                destination,
                source_amount,
                registry,
                fee_nom,
                fee_denom,
            );
            &&& converted is Ok <==> quote is Ok
            &&& converted is Err ==> quote == Err::<u128, PoolError>(PoolError::ArithmeticOverflow)
            &&& quote is Ok ==> quote->Ok_0 <= converted->Ok_0
        }),
{
    let converted = convert_decimals_spec(
        source_amount,
        lookup_spec(registry, source)->0.decimals,
        lookup_spec(registry, destination)->0.decimals,
    );
    if converted is Ok {
        crate::wide::lemma_multiply_then_divide_part(converted->Ok_0, fee_nom, fee_denom);
    }
}

} // verus!
