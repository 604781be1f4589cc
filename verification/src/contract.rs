//! The requests that the pool answers.
//!
//! Each function takes what the pool has stored and what the request says,
//! decides, and returns the instructions and the log for the host. Nothing
//! is returned in part: an error means that no instruction is to be carried
//! out and nothing is to be stored.

use crate::decimal::CANONICAL_DECIMALS;
use crate::error::PoolError;
use crate::liquidity::{provide, provide_spec, withdraw, withdraw_spec};
use crate::msg::{
    result_view, views, Config, ConfigView, HandleMsg, HandleMsgView, InitMsg, InitMsgView,
    QueryMsg, Snip20ReceiveMsg, Snip20ReceiveMsgView, Token, TokenAmount, TokenAmountView,
    TokenInfo, TokenInfoView, TokenView,
};
use crate::registry::{holds, lookup, lookup_spec, register, register_spec, registry_wf};
use crate::response::{
    log_amount, log_asset, log_text, Env, EnvView, HandleResponse, InitResponse, Initialized,
    InitializedView, LogEntry, LogEntryView, Message, MessageView, PoolResponse, PoolResponseView,
    QueryResponse, QueryResponseView, ResponseView, ShareTokenInit, ShareTokenInitView,
};
use crate::state::{check_fee, fee_wf, lifecycle_of, Lifecycle};
use crate::swap::{quote_swap, quote_swap_spec};
use vstd::prelude::*;

verus! {

/// The settings after the share token at `env.sender` has announced itself
/// to a pool with the settings `config`.
pub open spec fn post_initialize_config(config: ConfigView, env: EnvView) -> ConfigView {
    if config.lp_token_address.len() == 0 {
        ConfigView {
            admin: config.admin,
            swap_fee_nom: config.swap_fee_nom,
            swap_fee_denom: config.swap_fee_denom,
            is_halted: config.is_halted,
            round_down_pool_answer_to_nearest: config.round_down_pool_answer_to_nearest,
            lp_token_address: env.sender,
            lp_token_code_hash: config.lp_token_code_hash,
        }
    } else {
        config
    }
}

/// What `try_post_initialize` returns.
pub open spec fn try_post_initialize_spec(config: ConfigView, env: EnvView) -> Result<
    ResponseView,
    PoolError,
> {
    if config.lp_token_address.len() != 0 {
        Err(PoolError::PermissionDenied)
    } else {
        Ok(
            ResponseView {
                messages: seq![
                    MessageView::RegisterReceive {
                        own_code_hash: env.contract_code_hash,
                        code_hash: config.lp_token_code_hash,
                        address: env.sender,
                    },
                ],
                log: seq![log_text("liquidity_token_address"@, env.sender)],
            },
        )
    }
}

/// The share token announces itself: the caller becomes the pool's share
/// token, and is told to notify the pool of the shares that it receives.
///
/// Fails with `PermissionDenied`, and changes nothing, where the pool has a
/// share token already.
pub fn try_post_initialize(config: &mut Config, env: &Env) -> (r: Result<HandleResponse, PoolError>)
    ensures
        result_view(r) == try_post_initialize_spec(old(config)@, env@),
        final(config)@ == post_initialize_config(old(config)@, env@),
        r is Ok <==> lifecycle_of(Some(old(config)@)) == Lifecycle::AwaitingShareTokenBinding,
{
    if !config.lp_token_address.as_str().is_empty() {
        return Err(PoolError::PermissionDenied);
    }
    config.lp_token_address = env.sender.clone();
    let mut messages: Vec<Message> = Vec::new();
    messages.push(
        Message::RegisterReceive {
            own_code_hash: env.contract_code_hash.clone(),
            code_hash: config.lp_token_code_hash.clone(),
            address: env.sender.clone(),
        },
    );
    let mut log: Vec<LogEntry> = Vec::new();
    log.push(LogEntry::text("liquidity_token_address", &env.sender));
    let response = HandleResponse { messages, log };
    proof {
        let expected = try_post_initialize_spec(old(config)@, env@)->Ok_0;
        assert(response@.messages =~= expected.messages);
        assert(response@.log =~= expected.log);
    }
    Ok(response)
}

/// The share token can announce itself once only: after a call by a named
/// caller has succeeded, every further call fails with `PermissionDenied`
/// and leaves the settings as they are.
pub proof fn post_initialize_only_once(config: ConfigView, first: EnvView, second: EnvView)
    requires
        try_post_initialize_spec(config, first) is Ok,
        first.sender.len() != 0,
    ensures
        lifecycle_of(Some(post_initialize_config(config, first))) == Lifecycle::Active,
        try_post_initialize_spec(post_initialize_config(config, first), second) == Err::<
            ResponseView,
            PoolError,
        >(PoolError::PermissionDenied),
        post_initialize_config(post_initialize_config(config, first), second)
            == post_initialize_config(config, first),
{
}

/// What `try_swap` returns.
pub open spec fn try_swap_spec(
    assets: Seq<TokenInfoView>,
    config: ConfigView,
    src_amount: u128,
    src_token: Seq<char>,
    dst_token: Seq<char>,
    recipient: Seq<char>,
) -> Result<ResponseView, PoolError> {
    if config.is_halted {
        Err(PoolError::PoolHalted)
    } else {
        match quote_swap_spec(
            src_token,
            dst_token,
            src_amount,
            assets,
            config.swap_fee_nom,
            config.swap_fee_denom,
        ) {
            Err(e) => Err(e),
            Ok(dst_amount) => Ok(
                ResponseView {
                    messages: seq![
                        MessageView::Transfer {
                            recipient,
                            amount: dst_amount,
                            code_hash: lookup_spec(assets, dst_token)->0.code_hash,
                            address: dst_token,
                        },
                    ],
                    log: seq![
                        log_text("action"@, "swap"@),
                        log_text("offer_asset"@, src_token),
                        log_text("ask_asset"@, dst_token),
                        log_amount("offer_amount"@, src_amount),
                        log_amount("return_amount"@, dst_amount),
                    ],
                },
            ),
        }
    }
}

/// Swaps `src_amount` of the token at `src_token`, which the pool has
/// received, for the token at `dst_token`, to be sent to `recipient`.
///
/// Fails with `PoolHalted` where the pool is halted, and else as
/// `quote_swap` does. The answer holds one instruction, the transfer of the
/// quoted amount of the destination token to the recipient.
pub fn try_swap(
    assets: &Vec<TokenInfo>,
    config: &Config,
    src_amount: u128,
    src_token: &String,
    dst_token: &String,
    recipient: &String,
) -> (r: Result<HandleResponse, PoolError>)
    requires
        registry_wf(views(assets@)),
    ensures
        result_view(r) == try_swap_spec(
            views(assets@),
            config@,
            src_amount,
            src_token@,
            dst_token@,
            recipient@,
        ),
{
    if config.is_halted {
        return Err(PoolError::PoolHalted);
    }
    let destination = match lookup(assets, dst_token) {
        Some(info) => info,
        None => {
            return Err(PoolError::UnsupportedToken);
        },
    };
    let dst_amount = match quote_swap(src_token, dst_token, src_amount, assets, config) {
        Ok(amount) => amount,
        Err(e) => {
            return Err(e);
        },
    };
    let mut messages: Vec<Message> = Vec::new();
    messages.push(
        Message::Transfer {
            recipient: recipient.clone(),
            amount: dst_amount,
            code_hash: destination.code_hash.clone(),
            address: dst_token.clone(),
        },
    );
    let action = "swap".to_owned();
    let mut log: Vec<LogEntry> = Vec::new();
    log.push(LogEntry::text("action", &action));
    log.push(LogEntry::text("offer_asset", src_token));
    log.push(LogEntry::text("ask_asset", dst_token));
    log.push(LogEntry::amount("offer_amount", src_amount));
    log.push(LogEntry::amount("return_amount", dst_amount));
    let response = HandleResponse { messages, log };
    proof {
        let expected = try_swap_spec(
            views(assets@),
            config@,
            src_amount,
            src_token@,
            dst_token@,
            recipient@,
        )->Ok_0;
        assert(response@.messages =~= expected.messages);
        assert(response@.log =~= expected.log);
    }
    Ok(response)
}

/// The instruction in place `i` of the answer to a deposit for `share`
/// shares: first a transfer of each deposit from the depositor to the pool,
/// then the minting of the shares.
pub open spec fn provide_message(
    config: ConfigView,
    env: EnvView,
    deposits: Seq<TokenAmountView>,
    share: u128,
    i: int,
) -> MessageView {
    if i < deposits.len() {
        MessageView::TransferFrom {
            owner: env.sender,
            recipient: env.contract_address,
            amount: deposits[i].amount,
            code_hash: deposits[i].code_hash,
            address: deposits[i].address,
        }
    } else {
        MessageView::Mint {
            recipient: env.sender,
            amount: share,
            code_hash: config.lp_token_code_hash,
            address: config.lp_token_address,
        }
    }
}

/// The log entry in place `i` of the answer to a deposit for `share`
/// shares: the action, then the address of each deposited token, then the
/// shares.
pub open spec fn provide_log(deposits: Seq<TokenAmountView>, share: u128, i: int) -> LogEntryView {
    if i == 0 {
        log_text("action"@, "provide_liquidity"@)
    } else if i <= deposits.len() {
        log_text("token"@, deposits[i - 1].address)
    } else {
        log_amount("share"@, share)
    }
}

/// What `try_provide_liquidity` returns.
pub open spec fn try_provide_liquidity_spec(
    assets: Seq<TokenInfoView>,
    config: ConfigView,
    env: EnvView,
    deposits: Seq<TokenAmountView>,
) -> Result<ResponseView, PoolError> {
    if config.is_halted {
        Err(PoolError::PoolHalted)
    } else {
        match provide_spec(deposits, assets) {
            Err(e) => Err(e),
            Ok(share) => Ok(
                ResponseView {
                    messages: Seq::new(
                        deposits.len() + 1,
                        |i: int| provide_message(config, env, deposits, share, i),
                    ),
                    log: Seq::new(deposits.len() + 2, |i: int| provide_log(deposits, share, i)),
                },
            ),
        }
    }
}

/// Takes the listed deposits from the caller and mints shares for them.
///
/// Fails with `PoolHalted` where the pool is halted, and else as `provide`
/// does. The answer holds a transfer of each deposit from the caller to the
/// pool, in the order given, and then the minting of the shares to the
/// caller. `cancel_if_no_bonus` has no effect.
#[allow(unused_variables)]
pub fn try_provide_liquidity(
    assets: &Vec<TokenInfo>,
    config: &Config,
    env: &Env,
    assets_deposits: &Vec<TokenAmount>,
    cancel_if_no_bonus: Option<bool>,
) -> (r: Result<HandleResponse, PoolError>)
    requires
        registry_wf(views(assets@)),
    ensures
        result_view(r) == try_provide_liquidity_spec(
            views(assets@),
            config@,
            env@,
            views(assets_deposits@),
        ),
{
    if config.is_halted {
        return Err(PoolError::PoolHalted);
    }
    // The share rule does not read the total supply.
    let share = match provide(assets_deposits, assets, 0) {
        Ok(share) => share,
        Err(e) => {
            return Err(e);
        },
    };
    let ghost d = views(assets_deposits@);
    let action = "provide_liquidity".to_owned();
    let mut messages: Vec<Message> = Vec::new();
    let mut log: Vec<LogEntry> = Vec::new();
    log.push(LogEntry::text("action", &action));
    let mut i: usize = 0;
    while i < assets_deposits.len()
        invariant
            i <= assets_deposits.len(),
            d == views(assets_deposits@),
            messages.len() == i,
            log.len() == i + 1,
            forall|j: int|
                0 <= j < i ==> (#[trigger] messages@[j])@ == provide_message(
                    config@,
                    env@,
                    d,
                    share,
                    j,
                ),
            forall|j: int| 0 <= j < i + 1 ==> (#[trigger] log@[j])@ == provide_log(d, share, j),
        decreases assets_deposits.len() - i,
    {
        let deposit = &assets_deposits[i];
        assert(d[i as int] == deposit@);
        messages.push(
            Message::TransferFrom {
                owner: env.sender.clone(),
                recipient: env.contract_address.clone(),
                amount: deposit.amount,
                code_hash: deposit.code_hash.clone(),
                address: deposit.address.clone(),
            },
        );
        log.push(LogEntry::text("token", &deposit.address));
        i += 1;
    }
    messages.push(
        Message::Mint {
            recipient: env.sender.clone(),
            amount: share,
            code_hash: config.lp_token_code_hash.clone(),
            address: config.lp_token_address.clone(),
        },
    );
    log.push(LogEntry::amount("share", share));
    let response = HandleResponse { messages, log };
    proof {
        let expected = try_provide_liquidity_spec(views(assets@), config@, env@, d)->Ok_0;
        assert(response@.messages =~= expected.messages);
        assert(response@.log =~= expected.log);
    }
    Ok(response)
}

/// The instruction in place `i` of the answer to a withdrawal of `amount`
/// shares: first the transfer of each refund to the withdrawer, then the
/// burning of the shares.
pub open spec fn withdraw_message(
    config: ConfigView,
    sender: Seq<char>,
    amount: u128,
    refunds: Seq<TokenAmountView>,
    i: int,
) -> MessageView {
    if i < refunds.len() {
        MessageView::Transfer {
            recipient: sender,
            amount: refunds[i].amount,
            code_hash: refunds[i].code_hash,
            address: refunds[i].address,
        }
    } else {
        MessageView::Burn {
            amount,
            code_hash: config.lp_token_code_hash,
            address: config.lp_token_address,
        }
    }
}

/// The log entry in place `i` of the answer to a withdrawal of `amount`
/// shares: the action, the shares, then each refund.
pub open spec fn withdraw_log(amount: u128, refunds: Seq<TokenAmountView>, i: int) -> LogEntryView {
    if i == 0 {
        log_text("action"@, "withdraw_liquidity"@)
    } else if i == 1 {
        log_amount("withdrawn_share"@, amount)
    } else {
        log_asset("refund_asset"@, refunds[i - 2])
    }
}

/// What `try_withdraw_liquidity` returns.
pub open spec fn try_withdraw_liquidity_spec(
    config: ConfigView,
    sender: Seq<char>,
    amount: u128,
    pool: PoolResponseView,
) -> Result<ResponseView, PoolError> {
    if config.is_halted {
        Err(PoolError::PoolHalted)
    } else {
        match withdraw_spec(amount, pool.assets, pool.total_share) {
            Err(e) => Err(e),
            Ok(refunds) => Ok(
                ResponseView {
                    messages: Seq::new(
                        refunds.len() + 1,
                        |i: int| withdraw_message(config, sender, amount, refunds, i),
                    ),
                    log: Seq::new(refunds.len() + 2, |i: int| withdraw_log(amount, refunds, i)),
                },
            ),
        }
    }
}

/// Pays out the part of the pool that `amount` shares, which the pool has
/// received from `sender`, are of the total supply, and burns the shares.
///
/// `pool` holds what the token contracts report at the start of the request.
/// Fails with `PoolHalted` where the pool is halted, and else as `withdraw`
/// does. The answer holds a transfer of each refund to `sender`, in the
/// order of `pool.assets`, and then the burning of the shares.
pub fn try_withdraw_liquidity(
    config: &Config,
    sender: &String,
    amount: u128,
    pool: &PoolResponse,
) -> (r: Result<HandleResponse, PoolError>)
    ensures
        result_view(r) == try_withdraw_liquidity_spec(config@, sender@, amount, pool@),
{
    if config.is_halted {
        return Err(PoolError::PoolHalted);
    }
    let refunds = match withdraw(amount, &pool.assets, pool.total_share) {
        Ok(refunds) => refunds,
        Err(e) => {
            return Err(e);
        },
    };
    let ghost f = views(refunds@);
    let action = "withdraw_liquidity".to_owned();
    let mut messages: Vec<Message> = Vec::new();
    let mut log: Vec<LogEntry> = Vec::new();
    log.push(LogEntry::text("action", &action));
    log.push(LogEntry::amount("withdrawn_share", amount));
    let mut i: usize = 0;
    while i < refunds.len()
        invariant
            i <= refunds.len(),
            f == views(refunds@),
            messages.len() == i,
            log.len() == i + 2,
            forall|j: int|
                0 <= j < i ==> (#[trigger] messages@[j])@ == withdraw_message(
                    config@,
                    sender@,
                    amount,
                    f,
                    j,
                ),
            forall|j: int| 0 <= j < i + 2 ==> (#[trigger] log@[j])@ == withdraw_log(amount, f, j),
        decreases refunds.len() - i,
    {
        let refund = &refunds[i];
        assert(f[i as int] == refund@);
        messages.push(
            Message::Transfer {
                recipient: sender.clone(),
                amount: refund.amount,
                code_hash: refund.code_hash.clone(),
                address: refund.address.clone(),
            },
        );
        log.push(LogEntry::asset("refund_asset", refund));
        i += 1;
    }
    messages.push(
        Message::Burn {
            amount,
            code_hash: config.lp_token_code_hash.clone(),
            address: config.lp_token_address.clone(),
        },
    );
    let response = HandleResponse { messages, log };
    proof {
        let expected = try_withdraw_liquidity_spec(config@, sender@, amount, pool@)->Ok_0;
        assert(response@.messages =~= expected.messages);
        assert(response@.log =~= expected.log);
    }
    Ok(response)
}

/// The address to which a swap pays: the recipient named in the request
/// or, without one, the sender of the amount.
pub open spec fn swap_recipient(recipient: Option<Seq<char>>, sender: Seq<char>) -> Seq<char> {
    match recipient {
        Some(r) => r,
        None => sender,
    }
}

/// What `receive_snip20` returns.
pub open spec fn receive_snip20_spec(
    assets: Seq<TokenInfoView>,
    config: ConfigView,
    env: EnvView,
    sender: Seq<char>,
    amount: u128,
    msg: Snip20ReceiveMsgView,
    pool: PoolResponseView,
) -> Result<ResponseView, PoolError> {
    match msg {
        Snip20ReceiveMsgView::Swap { to_token, recipient } => {
            if !holds(assets, env.sender) || !holds(assets, to_token) {
                Err(PoolError::UnsupportedToken)
            } else {
                try_swap_spec(
                    assets,
                    config,
                    amount,
                    env.sender,
                    to_token,
                    swap_recipient(recipient, sender),
                )
            }
        },
        Snip20ReceiveMsgView::WithdrawLiquidity => {
            if env.sender != config.lp_token_address {
                Err(PoolError::UnsupportedToken)
            } else {
                try_withdraw_liquidity_spec(config, sender, amount, pool)
            }
        },
    }
}

/// Whether the caller is the pool's share token: only shares can be
/// withdrawn. Fails with `UnsupportedToken` where it is any other.
pub fn authorize_withdrawal(config: &Config, env: &Env) -> (r: Result<(), PoolError>)
    ensures
        r is Ok <==> env.sender@ == config.lp_token_address@,
        r is Err ==> r->Err_0 == PoolError::UnsupportedToken,
{
    if env.sender != config.lp_token_address {
        return Err(PoolError::UnsupportedToken);
    }
    Ok(())
}

/// Answers the notice of a token contract, the caller, that `sender` has
/// sent `amount` of that token to the pool.
///
/// For a swap, the caller is the source token: fails with
/// `UnsupportedToken` unless the pool holds both the caller and `to_token`,
/// and goes on as `try_swap` does, paying the recipient named or, without
/// one, `sender`. For a withdrawal, the amount is shares: fails with
/// `UnsupportedToken` unless the caller is the pool's share token, and goes
/// on as `try_withdraw_liquidity` does with `pool`, which is read for a
/// withdrawal only.
pub fn receive_snip20(
    assets: &Vec<TokenInfo>,
    config: &Config,
    env: &Env,
    sender: &String,
    amount: u128,
    msg: &Snip20ReceiveMsg,
    pool: &PoolResponse,
) -> (r: Result<HandleResponse, PoolError>)
    requires
        registry_wf(views(assets@)),
    ensures
        result_view(r) == receive_snip20_spec(
            views(assets@),
            config@,
            env@,
            sender@,
            amount,
            msg@,
            pool@,
        ),
{
    match msg {
        Snip20ReceiveMsg::Swap { to_token, recipient } => {
            if lookup(assets, &env.sender).is_none() {
                return Err(PoolError::UnsupportedToken);
            }
            if lookup(assets, to_token).is_none() {
                return Err(PoolError::UnsupportedToken);
            }
            match recipient {
                Some(named) => try_swap(assets, config, amount, &env.sender, to_token, named),
                None => try_swap(assets, config, amount, &env.sender, to_token, sender),
            }
        },
        Snip20ReceiveMsg::WithdrawLiquidity {  } => {
            match authorize_withdrawal(config, env) {
                Ok(()) => try_withdraw_liquidity(config, sender, amount, pool),
                Err(e) => Err(e),
            }
        },
    }
}

/// What `handle` returns, for every request but the renewal of viewing
/// keys, which the pool does not answer.
pub open spec fn handle_spec(
    assets: Seq<TokenInfoView>,
    config: ConfigView,
    env: EnvView,
    msg: HandleMsgView,
    pool: PoolResponseView,
) -> Result<ResponseView, PoolError>
    recommends
        !(msg is UpdateViewingKeys),
{
    match msg {
        HandleMsgView::Receive { from, msg, amount } => receive_snip20_spec(
            assets,
            config,
            env,
            from,
            amount,
            msg,
            pool,
        ),
        HandleMsgView::ProvideLiquidity {
            assets: deposits,
            cancel_if_no_bonus,
        } => try_provide_liquidity_spec(assets, config, env, deposits),
        HandleMsgView::PostInitialize => try_post_initialize_spec(config, env),
        HandleMsgView::UpdateViewingKeys => arbitrary(),
    }
}

/// The settings after `handle`: only the share token's announcement changes
/// them.
pub open spec fn handle_config(config: ConfigView, env: EnvView, msg: HandleMsgView) -> ConfigView {
    match msg {
        HandleMsgView::PostInitialize => post_initialize_config(config, env),
        _ => config,
    }
}

/// Answers a request that may change the pool: hands it to
/// `receive_snip20`, `try_provide_liquidity` or `try_post_initialize`.
///
/// The renewal of viewing keys is not among the requests that the pool
/// answers.
pub fn handle(
    assets: &Vec<TokenInfo>,
    config: &mut Config,
    env: &Env,
    msg: &HandleMsg,
    pool: &PoolResponse,
) -> (r: Result<HandleResponse, PoolError>)
    requires
        registry_wf(views(assets@)),
        !(msg is UpdateViewingKeys),
    ensures
        result_view(r) == handle_spec(views(assets@), old(config)@, env@, msg@, pool@),
        final(config)@ == handle_config(old(config)@, env@, msg@),
{
    match msg {
        HandleMsg::Receive { from, msg, amount } => receive_snip20(
            assets,
            config,
            env,
            from,
            *amount,
            msg,
            pool,
        ),
        HandleMsg::ProvideLiquidity {
            assets: deposits,
            cancel_if_no_bonus,
        } => try_provide_liquidity(assets, config, env, deposits, *cancel_if_no_bonus),
        HandleMsg::PostInitialize {  } => try_post_initialize(config, env),
        HandleMsg::UpdateViewingKeys {  } => unreached(),
    }
}

/// The settings with which the pool creates its share token: 18 decimals,
/// a public total supply, minting and burning but neither deposit nor
/// redemption, the pool as admin, and the pool to be called back.
pub open spec fn share_token_init(msg: InitMsgView, env: EnvView) -> ShareTokenInitView {
    ShareTokenInitView {
        name: "StableSwap Liquidity Provider (LP) token"@,
        admin: env.contract_address,
        symbol: "STABLE-LP"@,
        decimals: 18,
        prng_seed: msg.lp_token_prng_seed,
        public_total_supply: true,
        enable_deposit: false,
        enable_redeem: false,
        enable_mint: true,
        enable_burn: true,
        callback_address: env.contract_address,
        callback_code_hash: env.contract_code_hash,
    }
}

/// The instruction in place `i` of the answer to the set-up: for each token
/// in turn the setting of its viewing key and the registration of the pool
/// as a receiver, then the creation of the share token.
pub open spec fn init_message(msg: InitMsgView, env: EnvView, i: int) -> MessageView {
    if i >= 2 * msg.assets.len() {
        MessageView::InstantiateShareToken {
            code_id: msg.lp_token_code_id,
            code_hash: msg.lp_token_code_hash,
            label: msg.lp_token_label,
            init: share_token_init(msg, env),
        }
    } else if i % 2 == 0 {
        MessageView::SetViewingKey {
            key: msg.initial_tokens_viewing_key,
            code_hash: msg.assets[i / 2].code_hash,
            address: msg.assets[i / 2].address,
        }
    } else {
        MessageView::RegisterReceive {
            own_code_hash: env.contract_code_hash,
            code_hash: msg.assets[i / 2].code_hash,
            address: msg.assets[i / 2].address,
        }
    }
}

/// The settings of a new pool: those of the request, and no share token.
pub open spec fn init_config(msg: InitMsgView) -> ConfigView {
    ConfigView {
        admin: msg.admin,
        swap_fee_nom: msg.swap_fee_nom,
        swap_fee_denom: msg.swap_fee_denom,
        is_halted: msg.is_halted,
        round_down_pool_answer_to_nearest: msg.round_down_pool_answer_to_nearest,
        lp_token_address: Seq::empty(),
        lp_token_code_hash: msg.lp_token_code_hash,
    }
}

/// What `init` returns.
pub open spec fn init_spec(msg: InitMsgView, env: EnvView, decimals: Seq<u8>) -> Result<
    InitializedView,
    PoolError,
> {
    if !fee_wf(msg.swap_fee_nom, msg.swap_fee_denom) {
        Err(PoolError::ArithmeticError)
    } else {
        match register_spec(msg.assets, decimals, msg.initial_tokens_viewing_key) {
            Err(e) => Err(e),
            Ok(assets) => Ok(
                InitializedView {
                    assets,
                    config: init_config(msg),
                    response: ResponseView {
                        messages: Seq::new(
                            2 * msg.assets.len() + 1,
                            |i: int| init_message(msg, env, i),
                        ),
                        log: seq![log_text("status"@, "success"@)],
                    },
                },
            ),
        }
    }
}

/// Sets the pool up. `decimals[i]` is the number of decimals that the token
/// `msg.assets[i]` reports.
///
/// Fails with `ArithmeticError` where the fee's denominator is zero or its
/// numerator is above the denominator, and with `PrecisionExceeded` where a
/// token reports more than 18 decimals. Otherwise returns the registry and
/// the settings to store, the latter without a share token, and the
/// instructions: for each token the setting of its viewing key and the
/// registration of the pool as a receiver, and at the end the creation of
/// the share token.
pub fn init(env: &Env, msg: &InitMsg, decimals: &Vec<u8>) -> (r: Result<Initialized, PoolError>)
    requires
        decimals.len() == msg.assets.len(),
    ensures
        result_view(r) == init_spec(msg@, env@, decimals@),
        r is Ok ==> registry_wf(views(r->Ok_0.assets@)),
        r is Ok ==> fee_wf(r->Ok_0.config.swap_fee_nom, r->Ok_0.config.swap_fee_denom),
        r is Ok ==> lifecycle_of(Some(r->Ok_0.config@)) == Lifecycle::AwaitingShareTokenBinding,
{
    match check_fee(msg.swap_fee_nom, msg.swap_fee_denom) {
        Ok(()) => {},
        Err(e) => {
            return Err(e);
        },
    }
    let assets = match register(&msg.assets, decimals, &msg.initial_tokens_viewing_key) {
        Ok(assets) => assets,
        Err(e) => {
            return Err(e);
        },
    };
    let mut messages: Vec<Message> = Vec::new();
    let mut i: usize = 0;
    while i < msg.assets.len()
        invariant
            i <= msg.assets.len(),
            messages.len() == 2 * i,
            forall|j: int|
                0 <= j < 2 * i ==> (#[trigger] messages@[j])@ == init_message(msg@, env@, j),
        decreases msg.assets.len() - i,
    {
        let token = &msg.assets[i];
        assert(msg@.assets[i as int] == token@);
        messages.push(
            Message::SetViewingKey {
                key: msg.initial_tokens_viewing_key.clone(),
                code_hash: token.code_hash.clone(),
                address: token.address.clone(),
            },
        );
        messages.push(
            Message::RegisterReceive {
                own_code_hash: env.contract_code_hash.clone(),
                code_hash: token.code_hash.clone(),
                address: token.address.clone(),
            },
        );
        i += 1;
    }
    let prng_seed = msg.lp_token_prng_seed.clone();
    assert(prng_seed@ =~= msg.lp_token_prng_seed@);
    messages.push(
        Message::InstantiateShareToken {
            code_id: msg.lp_token_code_id,
            code_hash: msg.lp_token_code_hash.clone(),
            label: msg.lp_token_label.clone(),
            init: ShareTokenInit {
                name: "StableSwap Liquidity Provider (LP) token".to_owned(),
                admin: env.contract_address.clone(),
                symbol: "STABLE-LP".to_owned(),
                decimals: CANONICAL_DECIMALS,
                prng_seed,
                public_total_supply: true,
                enable_deposit: false,
                enable_redeem: false,
                enable_mint: true,
                enable_burn: true,
                callback_address: env.contract_address.clone(),
                callback_code_hash: env.contract_code_hash.clone(),
            },
        },
    );
    let config = Config {
        admin: msg.admin.clone(),
        swap_fee_nom: msg.swap_fee_nom,
        swap_fee_denom: msg.swap_fee_denom,
        is_halted: msg.is_halted,
        round_down_pool_answer_to_nearest: msg.round_down_pool_answer_to_nearest,
        lp_token_address: String::new(),
        lp_token_code_hash: msg.lp_token_code_hash.clone(),
    };
    let status = "success".to_owned();
    let mut log: Vec<LogEntry> = Vec::new();
    log.push(LogEntry::text("status", &status));
    let initialized = Initialized { assets, config, response: InitResponse { messages, log } };
    proof {
        let expected = init_spec(msg@, env@, decimals@)->Ok_0;
        assert(initialized@.config == expected.config);
        assert(initialized@.response.messages =~= expected.response.messages);
        assert(initialized@.response.log =~= expected.response.log);
    }
    Ok(initialized)
}

/// What `query_pair_info` returns: the tokens of the registry, in order.
pub open spec fn query_pair_info_spec(assets: Seq<TokenInfoView>) -> Seq<TokenView> {
    Seq::new(
        assets.len(),
        |i: int| TokenView { address: assets[i].address, code_hash: assets[i].code_hash },
    )
}

/// The tokens that the pool holds, in the order of the registry.
pub fn query_pair_info(assets: &Vec<TokenInfo>) -> (r: Vec<Token>)
    ensures
        views(r@) == query_pair_info_spec(views(assets@)),
{
    let mut tokens: Vec<Token> = Vec::new();
    let mut i: usize = 0;
    while i < assets.len()
        invariant
            i <= assets.len(),
            tokens.len() == i,
            forall|j: int|
                0 <= j < i ==> (#[trigger] tokens@[j])@ == (TokenView {
                    address: assets@[j].address@,
                    code_hash: assets@[j].code_hash@,
                }),
        decreases assets.len() - i,
    {
        tokens.push(
            Token { address: assets[i].address.clone(), code_hash: assets[i].code_hash.clone() },
        );
        i += 1;
    }
    assert(views(tokens@) =~= query_pair_info_spec(views(assets@)));
    tokens
}

/// What `query_pool` returns: each token of the registry with the balance
/// reported for it, and the total supply of shares.
pub open spec fn query_pool_spec(
    assets: Seq<TokenInfoView>,
    balances: Seq<u128>,
    total_share: u128,
) -> PoolResponseView {
    PoolResponseView {
        assets: Seq::new(
            assets.len(),
            |i: int|
                TokenAmountView {
                    address: assets[i].address,
                    code_hash: assets[i].code_hash,
                    amount: balances[i],
                },
        ),
        total_share,
    }
}

/// What the pool holds. `balances[i]` is the balance that the token
/// `assets[i]` reports for the pool, and `total_share` the total supply that
/// the share token reports.
pub fn query_pool(assets: &Vec<TokenInfo>, balances: &Vec<u128>, total_share: u128) -> (r:
    PoolResponse)
    requires
        balances.len() == assets.len(),
    ensures
        r@ == query_pool_spec(views(assets@), balances@, total_share),
{
    let mut holdings: Vec<TokenAmount> = Vec::new();
    let mut i: usize = 0;
    while i < assets.len()
        invariant
            i <= assets.len(),
            balances.len() == assets.len(),
            holdings.len() == i,
            forall|j: int|
                0 <= j < i ==> (#[trigger] holdings@[j])@ == (TokenAmountView {
                    address: assets@[j].address@,
                    code_hash: assets@[j].code_hash@,
                    amount: balances@[j],
                }),
        decreases assets.len() - i,
    {
        holdings.push(
            TokenAmount {
                address: assets[i].address.clone(),
                code_hash: assets[i].code_hash.clone(),
                amount: balances[i],
            },
        );
        i += 1;
    }
    let response = PoolResponse { assets: holdings, total_share };
    assert(response@.assets =~= query_pool_spec(views(assets@), balances@, total_share).assets);
    response
}

/// What `query` returns, for every question but the one for the most
/// needed token, which the pool does not answer.
pub open spec fn query_spec(
    assets: Seq<TokenInfoView>,
    config: ConfigView,
    msg: QueryMsg,
    pool: PoolResponseView,
) -> QueryResponseView
    recommends
        !(msg is GetMostNeededToken),
{
    match msg {
        QueryMsg::GetConfig {  } => QueryResponseView::Config(config),
        QueryMsg::GetTokens {  } => QueryResponseView::Tokens(query_pair_info_spec(assets)),
        QueryMsg::GetPools {  } => QueryResponseView::Pools(pool),
        QueryMsg::GetMostNeededToken {  } => arbitrary(),
    }
}

/// Answers a question about the pool: its settings, its tokens, or what it
/// holds according to `pool`, the report of the token contracts.
///
/// Which token the pool needs most is not among the questions that it
/// answers.
pub fn query(assets: &Vec<TokenInfo>, config: &Config, msg: QueryMsg, pool: &PoolResponse) -> (r:
    QueryResponse)
    requires
        !(msg is GetMostNeededToken),
    ensures
        r@ == query_spec(views(assets@), config@, msg, pool@),
{
    match msg {
        QueryMsg::GetConfig {  } => QueryResponse::Config(config.clone()),
        QueryMsg::GetTokens {  } => QueryResponse::Tokens(query_pair_info(assets)),
        QueryMsg::GetPools {  } => {
            let mut holdings: Vec<TokenAmount> = Vec::new();
            let mut i: usize = 0;
            while i < pool.assets.len()
                invariant
                    i <= pool.assets.len(),
                    holdings.len() == i,
                    forall|j: int| 0 <= j < i ==> (#[trigger] holdings@[j])@ == pool.assets@[j]@,
                decreases pool.assets.len() - i,
            {
                holdings.push(pool.assets[i].clone());
                i += 1;
            }
            let copy = PoolResponse { assets: holdings, total_share: pool.total_share };
            assert(copy@.assets =~= pool@.assets);
            QueryResponse::Pools(copy)
        },
        QueryMsg::GetMostNeededToken {  } => unreached(),
    }
}

} // verus!
