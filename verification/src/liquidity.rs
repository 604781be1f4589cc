//! Shares for deposits, and assets for shares.
//!
//! A deposit is worth its amount at the canonical scale, and a depositor is
//! given one share for each canonical unit, whatever the pool holds at the
//! time. A withdrawal of shares pays, of every asset, the part of the pool's
//! balance that the shares are of the total supply, rounded down: what
//! rounding leaves stays in the pool.

use crate::decimal::{pow10, to_canonical};
use crate::error::PoolError;
use crate::msg::{result_views, views, TokenAmount, TokenAmountView, TokenInfo, TokenInfoView};
use crate::registry::{holds, lemma_lookup_wf, lookup, lookup_spec, registry_wf};
use crate::wide::{
    lemma_multiply_then_divide_monotone, lemma_multiply_then_divide_commutes,
    lemma_multiply_then_divide_part, lemma_multiply_then_divide_whole, multiply_then_divide,
    multiply_then_divide_spec,
};
use vstd::prelude::*;

verus! {

/// The pool holds the token of every deposit.
pub open spec fn all_supported(deposits: Seq<TokenAmountView>, registry: Seq<TokenInfoView>) -> bool {
    forall|i: int| 0 <= i < deposits.len() ==> holds(registry, (#[trigger] deposits[i]).address)
}

/// The amount of a deposit at the canonical scale, however large.
pub open spec fn canonical_value(deposit: TokenAmountView, registry: Seq<TokenInfoView>) -> nat {
    (deposit.amount * pow10((18 - lookup_spec(registry, deposit.address)->0.decimals) as nat)) as nat
}

/// The sum of the canonical values of the first `n` deposits.
pub open spec fn canonical_total(
    deposits: Seq<TokenAmountView>,
    registry: Seq<TokenInfoView>,
    n: nat,
) -> nat
    decreases n,
{
    if n == 0 {
        0
    } else {
        canonical_total(deposits, registry, (n - 1) as nat) + canonical_value(
            deposits[n - 1],
            registry,
        )
    }
}

/// What `provide` returns: the canonical value of all deposits together.
pub open spec fn provide_spec(deposits: Seq<TokenAmountView>, registry: Seq<TokenInfoView>) -> Result<
    u128,
    PoolError,
> {
    if !all_supported(deposits, registry) {
        Err(PoolError::UnsupportedToken)
    } else if canonical_total(deposits, registry, deposits.len()) > u128::MAX {
        Err(PoolError::ArithmeticOverflow)
    } else {
        Ok(canonical_total(deposits, registry, deposits.len()) as u128)
    }
}

/// The sum over more deposits is no smaller.
proof fn lemma_canonical_total_grows(
    deposits: Seq<TokenAmountView>,
    registry: Seq<TokenInfoView>,
    m: nat,
    n: nat,
)
    requires
        m <= n,
    ensures
        canonical_total(deposits, registry, m) <= canonical_total(deposits, registry, n),
    decreases n,
{
    if m < n {
        lemma_canonical_total_grows(deposits, registry, m, (n - 1) as nat);
    }
}

/// The number of shares to mint for a list of deposits.
///
/// Fails with `UnsupportedToken` where the pool does not hold the token of
/// some deposit. Otherwise the result is the sum of the deposits' amounts at
/// the canonical scale, and the call fails with `ArithmeticOverflow` where
/// that sum, or any term of it, does not fit in 128 bits. The total supply
/// of shares has no part in the result.
#[allow(unused_variables)]
pub fn provide(deposits: &Vec<TokenAmount>, registry: &Vec<TokenInfo>, total_share_supply: u128) -> (r:
    Result<u128, PoolError>)
    requires
        registry_wf(views(registry@)),
    ensures
        r == provide_spec(views(deposits@), views(registry@)),
{
    let ghost d = views(deposits@);
    let ghost reg = views(registry@);
    let mut decimals: Vec<u8> = Vec::new();
    let mut i: usize = 0;
    while i < deposits.len()
        invariant
            i <= deposits.len(),
            d == views(deposits@),
            reg == views(registry@),
            registry_wf(reg),
            decimals.len() == i,
            forall|j: int| 0 <= j < i ==> holds(reg, (#[trigger] d[j]).address),
            forall|j: int|
                0 <= j < i ==> lookup_spec(reg, d[j].address) is Some && #[trigger] decimals@[j]
                    == lookup_spec(reg, d[j].address)->0.decimals && decimals@[j] <= 18,
        decreases deposits.len() - i,
    {
        match lookup(registry, &deposits[i].address) {
            Some(info) => {
                proof {
                    assert(d[i as int].address == deposits@[i as int].address@);
                    lemma_lookup_wf(reg, d[i as int].address);
                }
                decimals.push(info.decimals);
            },
            None => {
                assert(!holds(reg, d[i as int].address));
                return Err(PoolError::UnsupportedToken);
            },
        }
        i += 1;
    }
    assert(all_supported(d, reg));
    let mut share: u128 = 0;
    let mut k: usize = 0;
    while k < deposits.len()
        invariant
            k <= deposits.len(),
            d == views(deposits@),
            reg == views(registry@),
            decimals.len() == deposits.len(),
            all_supported(d, reg),
            share == canonical_total(d, reg, k as nat),
            forall|j: int|
                0 <= j < deposits.len() ==> #[trigger] decimals@[j] == lookup_spec(
                    reg,
                    d[j].address,
                )->0.decimals && decimals@[j] <= 18,
        decreases deposits.len() - k,
    {
        proof {
            assert(d[k as int].amount == deposits@[k as int].amount);
            lemma_canonical_total_grows(d, reg, (k + 1) as nat, d.len());
            assert(canonical_total(d, reg, (k + 1) as nat) == canonical_total(d, reg, k as nat)
                + canonical_value(d[k as int], reg));
            assert(canonical_value(d[k as int], reg) == deposits@[k as int].amount * pow10(
                (18 - decimals@[k as int]) as nat,
            ));
        }
        match to_canonical(deposits[k].amount, decimals[k]) {
            Ok(value) => {
                match share.checked_add(value) {
                    Some(sum) => {
                        share = sum;
                    },
                    None => {
                        return Err(PoolError::ArithmeticOverflow);
                    },
                }
            },
            Err(_) => {
                return Err(PoolError::ArithmeticOverflow);
            },
        }
        k += 1;
    }
    Ok(share)
}

/// The part of `balance` that `share_amount` shares are of `total` shares.
pub open spec fn refund_spec(balance: u128, share_amount: u128, total: u128) -> Option<u128> {
    multiply_then_divide_spec(balance, share_amount, total)
}

/// What `withdraw` returns: of each balance the part that the shares are of
/// the total supply.
pub open spec fn withdraw_spec(
    share_amount: u128,
    pool_balances: Seq<TokenAmountView>,
    total_share_supply: u128,
) -> Result<Seq<TokenAmountView>, PoolError> {
    if total_share_supply == 0 || exists|i: int|
        0 <= i < pool_balances.len() && refund_spec(
            (#[trigger] pool_balances[i]).amount,
            share_amount,
            total_share_supply,
        ) is None {
        Err(PoolError::ArithmeticError)
    } else {
        Ok(
            Seq::new(
                pool_balances.len(),
                |i: int|
                    TokenAmountView {
                        address: pool_balances[i].address,
                        code_hash: pool_balances[i].code_hash,
                        amount: refund_spec(
                            pool_balances[i].amount,
                            share_amount,
                            total_share_supply,
                        )->0,
                    },
            ),
        )
    }
}

/// The amount of each asset to pay out for `share_amount` shares.
///
/// The refund of an asset is `floor(balance * share_amount /
/// total_share_supply)`, in the order of `pool_balances`. Fails with
/// `ArithmeticError` where no shares are outstanding and where a refund does
/// not fit in 128 bits.
pub fn withdraw(share_amount: u128, pool_balances: &Vec<TokenAmount>, total_share_supply: u128) -> (r:
    Result<Vec<TokenAmount>, PoolError>)
    ensures
        result_views(r) == withdraw_spec(share_amount, views(pool_balances@), total_share_supply),
{
    if total_share_supply == 0 {
        return Err(PoolError::ArithmeticError);
    }
    let ghost b = views(pool_balances@);
    let mut refunds: Vec<TokenAmount> = Vec::new();
    let mut i: usize = 0;
    while i < pool_balances.len()
        invariant
            i <= pool_balances.len(),
            b == views(pool_balances@),
            total_share_supply != 0,
            refunds.len() == i,
            forall|j: int|
                0 <= j < i ==> refund_spec((#[trigger] b[j]).amount, share_amount, total_share_supply)
                    is Some,
            forall|j: int|
                0 <= j < i ==> (#[trigger] refunds@[j])@ == (TokenAmountView {
                    address: b[j].address,
                    code_hash: b[j].code_hash,
                    amount: refund_spec(b[j].amount, share_amount, total_share_supply)->0,
                }),
        decreases pool_balances.len() - i,
    {
        let balance = &pool_balances[i];
        assert(b[i as int] == balance@);
        match multiply_then_divide(balance.amount, share_amount, total_share_supply) {
            Some(amount) => {
                refunds.push(
                    TokenAmount {
                        address: balance.address.clone(),
                        code_hash: balance.code_hash.clone(),
                        amount,
                    },
                );
            },
            None => {
                return Err(PoolError::ArithmeticError);
            },
        }
        i += 1;
    }
    proof {
        let expected = withdraw_spec(share_amount, b, total_share_supply);
        assert(expected is Ok);
        assert(views(refunds@) =~= expected->Ok_0);
    }
    Ok(refunds)
}

/// A withdrawal of no more shares than there are succeeds, unless there are
/// no shares at all, and pays of no asset more than the pool holds.
pub proof fn withdraw_within_balances(
    share_amount: u128,
    pool_balances: Seq<TokenAmountView>,
    total_share_supply: u128,
)
    requires
        share_amount <= total_share_supply,
    ensures
        withdraw_spec(share_amount, pool_balances, total_share_supply) is Ok
            <==> total_share_supply != 0,
        total_share_supply != 0 ==> forall|i: int|
            0 <= i < pool_balances.len() ==> (#[trigger] withdraw_spec(
                share_amount,
                pool_balances,
                total_share_supply,
            )->Ok_0[i]).amount <= pool_balances[i].amount,
{
    if total_share_supply != 0 {
        assert forall|i: int| 0 <= i < pool_balances.len() implies refund_spec(
            (#[trigger] pool_balances[i]).amount,
            share_amount,
            total_share_supply,
        ) is Some && refund_spec(pool_balances[i].amount, share_amount, total_share_supply)->0
            <= pool_balances[i].amount by {
            lemma_multiply_then_divide_part(
                pool_balances[i].amount,
                share_amount,
                total_share_supply,
            );
        }
    }
}

/// A withdrawal of all shares pays the whole pool.
pub proof fn withdraw_everything(pool_balances: Seq<TokenAmountView>, total_share_supply: u128)
    requires
        total_share_supply != 0,
    ensures
        withdraw_spec(total_share_supply, pool_balances, total_share_supply) == Ok::<
            Seq<TokenAmountView>,
            PoolError,
        >(pool_balances),
{
    assert forall|i: int| 0 <= i < pool_balances.len() implies refund_spec(
        (#[trigger] pool_balances[i]).amount,
        total_share_supply,
        total_share_supply,
    ) == Some(pool_balances[i].amount) by {
        lemma_multiply_then_divide_whole(pool_balances[i].amount, total_share_supply);
    }
    assert(withdraw_spec(total_share_supply, pool_balances, total_share_supply)->Ok_0
        =~= pool_balances);
}

/// More shares are paid no less: where the larger withdrawal succeeds, so
/// does the smaller, and it pays of no asset more.
pub proof fn withdraw_monotone(
    fewer: u128,
    more: u128,
    pool_balances: Seq<TokenAmountView>,
    total_share_supply: u128,
)
    requires
        fewer <= more,
        withdraw_spec(more, pool_balances, total_share_supply) is Ok,
    ensures
        withdraw_spec(fewer, pool_balances, total_share_supply) is Ok,
        forall|i: int|
            0 <= i < pool_balances.len() ==> (#[trigger] withdraw_spec(
                fewer,
                pool_balances,
                total_share_supply,
            )->Ok_0[i]).amount <= withdraw_spec(more, pool_balances, total_share_supply)->Ok_0[i].amount,
{
    assert forall|i: int| 0 <= i < pool_balances.len() implies refund_spec(
        (#[trigger] pool_balances[i]).amount,
        fewer,
        total_share_supply,
    ) is Some && refund_spec(pool_balances[i].amount, fewer, total_share_supply)->0 <= refund_spec(
        pool_balances[i].amount,
        more,
        total_share_supply,
    )->0 by {
        let balance = pool_balances[i].amount;
        assert(refund_spec(balance, more, total_share_supply) is Some);
        lemma_multiply_then_divide_commutes(balance, more, total_share_supply);
        lemma_multiply_then_divide_monotone(fewer, more, balance, total_share_supply);
        lemma_multiply_then_divide_commutes(balance, fewer, total_share_supply);
    }
}

/// The sum of the first `n` amounts of a list.
pub open spec fn total_amount(amounts: Seq<TokenAmountView>, n: nat) -> nat
    decreases n,
{
    if n == 0 {
        0
    } else {
        total_amount(amounts, (n - 1) as nat) + amounts[n - 1].amount as nat
    }
}

/// A list whose amounts are each no larger sums to no more.
proof fn lemma_total_amount_ordered(low: Seq<TokenAmountView>, high: Seq<TokenAmountView>, n: nat)
    requires
        n <= low.len(),
        n <= high.len(),
        forall|i: int| 0 <= i < n ==> (#[trigger] low[i]).amount <= high[i].amount,
    ensures
        total_amount(low, n) <= total_amount(high, n),
    decreases n,
{
    if n > 0 {
        lemma_total_amount_ordered(low, high, (n - 1) as nat);
        assert(low[n - 1].amount <= high[n - 1].amount);
    }
}

/// What a withdrawal pays over all assets together does not fall as the
/// shares grow.
pub proof fn withdraw_total_monotone(
    fewer: u128,
    more: u128,
    pool_balances: Seq<TokenAmountView>,
    total_share_supply: u128,
)
    requires
        fewer <= more,
        withdraw_spec(more, pool_balances, total_share_supply) is Ok,
    ensures
        withdraw_spec(fewer, pool_balances, total_share_supply) is Ok,
        total_amount(
            withdraw_spec(fewer, pool_balances, total_share_supply)->Ok_0,
            pool_balances.len(),
        ) <= total_amount(
            withdraw_spec(more, pool_balances, total_share_supply)->Ok_0,
            pool_balances.len(),
        ),
{
    withdraw_monotone(fewer, more, pool_balances, total_share_supply);
    lemma_total_amount_ordered(
        withdraw_spec(fewer, pool_balances, total_share_supply)->Ok_0,
        withdraw_spec(more, pool_balances, total_share_supply)->Ok_0,
        pool_balances.len(),
    );
}

} // verus!
