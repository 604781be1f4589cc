use stable_pool::contract::{
    authorize_withdrawal, handle, init, query, query_pair_info, query_pool, receive_snip20,
    try_post_initialize, try_provide_liquidity, try_swap, try_withdraw_liquidity,
};
use stable_pool::error::PoolError;
use stable_pool::msg::{
    Config, HandleMsg, InitMsg, QueryMsg, Snip20ReceiveMsg, Token, TokenAmount, TokenInfo,
};
use stable_pool::querier::query_token_total_supply;
use stable_pool::response::{
    Env, HandleResponse, LogEntry, LogValue, Message, PoolResponse, QueryResponse, ShareTokenInit,
};
use stable_pool::state::{check_fee, Lifecycle};

fn s(text: &str) -> String {
    text.to_string()
}

fn env(sender: &str) -> Env {
    Env { sender: s(sender), contract_address: s("pool"), contract_code_hash: s("pool-hash") }
}

fn init_msg() -> InitMsg {
    InitMsg {
        assets: vec![
            Token { address: s("A"), code_hash: s("hA") },
            Token { address: s("B"), code_hash: s("hB") },
        ],
        initial_tokens_viewing_key: s("vk"),
        lp_token_code_id: 7,
        lp_token_code_hash: s("lp-hash"),
        lp_token_prng_seed: vec![1, 2, 3],
        lp_token_label: s("label"),
        admin: s("admin"),
        swap_fee_nom: 997,
        swap_fee_denom: 1000,
        is_halted: false,
        round_down_pool_answer_to_nearest: true,
    }
}

fn assets() -> Vec<TokenInfo> {
    init(&env("creator"), &init_msg(), &vec![6, 18]).unwrap().assets
}

fn config(lp_token_address: &str, is_halted: bool) -> Config {
    Config {
        admin: s("admin"),
        swap_fee_nom: 997,
        swap_fee_denom: 1000,
        is_halted,
        round_down_pool_answer_to_nearest: true,
        lp_token_address: s(lp_token_address),
        lp_token_code_hash: s("lp-hash"),
    }
}

fn text(key: &str, value: &str) -> LogEntry {
    LogEntry { key: s(key), value: LogValue::Text(s(value)) }
}

fn number(key: &str, value: u128) -> LogEntry {
    LogEntry { key: s(key), value: LogValue::Amount(value) }
}

fn amount(address: &str, code_hash: &str, amount: u128) -> TokenAmount {
    TokenAmount { address: s(address), code_hash: s(code_hash), amount }
}

fn pool() -> PoolResponse {
    PoolResponse { assets: vec![amount("A", "hA", 1000), amount("B", "hB", 10)], total_share: 100 }
}

fn no_pool() -> PoolResponse {
    PoolResponse { assets: vec![], total_share: 0 }
}

#[test]
fn init_makes_registry_settings_and_instructions() {
    let made = init(&env("creator"), &init_msg(), &vec![6, 18]).unwrap();
    assert_eq!(
        made.assets,
        vec![
            TokenInfo { address: s("A"), code_hash: s("hA"), viewing_key: s("vk"), decimals: 6 },
            TokenInfo { address: s("B"), code_hash: s("hB"), viewing_key: s("vk"), decimals: 18 },
        ]
    );
    assert_eq!(made.config, config("", false));
    assert_eq!(made.config.lifecycle(), Lifecycle::AwaitingShareTokenBinding);
    assert_eq!(
        made.response.messages,
        vec![
            Message::SetViewingKey { key: s("vk"), code_hash: s("hA"), address: s("A") },
            Message::RegisterReceive {
                own_code_hash: s("pool-hash"),
                code_hash: s("hA"),
                address: s("A"),
            },
            Message::SetViewingKey { key: s("vk"), code_hash: s("hB"), address: s("B") },
            Message::RegisterReceive {
                own_code_hash: s("pool-hash"),
                code_hash: s("hB"),
                address: s("B"),
            },
            Message::InstantiateShareToken {
                code_id: 7,
                code_hash: s("lp-hash"),
                label: s("label"),
                init: ShareTokenInit {
                    name: s("StableSwap Liquidity Provider (LP) token"),
                    admin: s("pool"),
                    symbol: s("STABLE-LP"),
                    decimals: 18,
                    prng_seed: vec![1, 2, 3],
                    public_total_supply: true,
                    enable_deposit: false,
                    enable_redeem: false,
                    enable_mint: true,
                    enable_burn: true,
                    callback_address: s("pool"),
                    callback_code_hash: s("pool-hash"),
                },
            },
        ]
    );
    assert_eq!(made.response.log, vec![text("status", "success")]);
}

#[test]
fn init_without_tokens() {
    let mut msg = init_msg();
    msg.assets = vec![];
    msg.is_halted = true;
    let made = init(&env("creator"), &msg, &vec![]).unwrap();
    assert_eq!(made.assets, vec![]);
    assert_eq!(made.config, config("", true));
    assert_eq!(made.response.messages.len(), 1);
}

#[test]
fn init_rejects_zero_fee_denominator() {
    let mut msg = init_msg();
    msg.swap_fee_denom = 0;
    assert_eq!(init(&env("creator"), &msg, &vec![6, 18]), Err(PoolError::ArithmeticError));
    msg.swap_fee_nom = 0;
    assert_eq!(init(&env("creator"), &msg, &vec![6, 19]), Err(PoolError::ArithmeticError));
}

#[test]
fn init_rejects_fee_above_one() {
    let mut msg = init_msg();
    msg.swap_fee_nom = 1001;
    assert_eq!(init(&env("creator"), &msg, &vec![6, 18]), Err(PoolError::ArithmeticError));
    msg.swap_fee_nom = 1000;
    assert!(init(&env("creator"), &msg, &vec![6, 18]).is_ok());
}

#[test]
fn init_rejects_nineteen_decimals() {
    assert_eq!(
        init(&env("creator"), &init_msg(), &vec![6, 19]),
        Err(PoolError::PrecisionExceeded)
    );
}

#[test]
fn check_fee_accepts_a_part_of_the_whole() {
    assert_eq!(check_fee(0, 1), Ok(()));
    assert_eq!(check_fee(1, 1), Ok(()));
    assert_eq!(check_fee(997, 1000), Ok(()));
    assert_eq!(check_fee(2, 1), Err(PoolError::ArithmeticError));
    assert_eq!(check_fee(0, 0), Err(PoolError::ArithmeticError));
}

#[test]
fn post_initialize_binds_the_caller() {
    let mut c = config("", false);
    let response = try_post_initialize(&mut c, &env("lp")).unwrap();
    assert_eq!(c, config("lp", false));
    assert_eq!(c.lifecycle(), Lifecycle::Active);
    assert_eq!(
        response,
        HandleResponse {
            messages: vec![Message::RegisterReceive {
                own_code_hash: s("pool-hash"),
                code_hash: s("lp-hash"),
                address: s("lp"),
            }],
            log: vec![text("liquidity_token_address", "lp")],
        }
    );
}

#[test]
fn post_initialize_twice_is_denied() {
    let mut c = config("", false);
    assert!(try_post_initialize(&mut c, &env("lp")).is_ok());
    assert_eq!(try_post_initialize(&mut c, &env("other")), Err(PoolError::PermissionDenied));
    assert_eq!(c, config("lp", false));
    assert_eq!(try_post_initialize(&mut c, &env("lp")), Err(PoolError::PermissionDenied));
    assert_eq!(c, config("lp", false));
}

#[test]
fn provide_liquidity_takes_deposits_and_mints() {
    let deposits = vec![amount("B", "hB", 100), amount("A", "hA", 100)];
    let response =
        try_provide_liquidity(&assets(), &config("lp", false), &env("user"), &deposits, None)
            .unwrap();
    assert_eq!(
        response.messages,
        vec![
            Message::TransferFrom {
                owner: s("user"),
                recipient: s("pool"),
                amount: 100,
                code_hash: s("hB"),
                address: s("B"),
            },
            Message::TransferFrom {
                owner: s("user"),
                recipient: s("pool"),
                amount: 100,
                code_hash: s("hA"),
                address: s("A"),
            },
            Message::Mint {
                recipient: s("user"),
                amount: 100_000_000_000_100,
                code_hash: s("lp-hash"),
                address: s("lp"),
            },
        ]
    );
    assert_eq!(
        response.log,
        vec![
            text("action", "provide_liquidity"),
            text("token", "B"),
            text("token", "A"),
            number("share", 100_000_000_000_100),
        ]
    );
}

#[test]
fn provide_liquidity_ignores_the_bonus_flag() {
    let deposits = vec![amount("A", "hA", 5)];
    let plain = try_provide_liquidity(&assets(), &config("lp", false), &env("u"), &deposits, None);
    let flagged =
        try_provide_liquidity(&assets(), &config("lp", false), &env("u"), &deposits, Some(true));
    assert!(plain.is_ok());
    assert_eq!(plain, flagged);
}

#[test]
fn provide_liquidity_errors() {
    let a = assets();
    let unknown = vec![amount("A", "hA", 5), amount("X", "hX", 5)];
    assert_eq!(
        try_provide_liquidity(&a, &config("lp", false), &env("u"), &unknown, None),
        Err(PoolError::UnsupportedToken)
    );
    let large = vec![amount("A", "hA", u128::MAX)];
    assert_eq!(
        try_provide_liquidity(&a, &config("lp", false), &env("u"), &large, None),
        Err(PoolError::ArithmeticOverflow)
    );
    assert_eq!(
        try_provide_liquidity(&a, &config("lp", true), &env("u"), &unknown, None),
        Err(PoolError::PoolHalted)
    );
}

#[test]
fn withdraw_liquidity_refunds_and_burns() {
    let response = try_withdraw_liquidity(&config("lp", false), &s("user"), 25, &pool()).unwrap();
    assert_eq!(
        response.messages,
        vec![
            Message::Transfer { recipient: s("user"), amount: 250, code_hash: s("hA"), address: s("A") },
            Message::Transfer { recipient: s("user"), amount: 2, code_hash: s("hB"), address: s("B") },
            Message::Burn { amount: 25, code_hash: s("lp-hash"), address: s("lp") },
        ]
    );
    assert_eq!(
        response.log,
        vec![
            text("action", "withdraw_liquidity"),
            number("withdrawn_share", 25),
            LogEntry {
                key: s("refund_asset"),
                value: LogValue::Asset { address: s("A"), amount: 250 },
            },
            LogEntry {
                key: s("refund_asset"),
                value: LogValue::Asset { address: s("B"), amount: 2 },
            },
        ]
    );
}

#[test]
fn withdraw_liquidity_errors() {
    assert_eq!(
        try_withdraw_liquidity(&config("lp", true), &s("user"), 25, &pool()),
        Err(PoolError::PoolHalted)
    );
    assert_eq!(
        try_withdraw_liquidity(&config("lp", false), &s("user"), 25, &no_pool()),
        Err(PoolError::ArithmeticError)
    );
}

#[test]
fn swap_pays_the_recipient() {
    let response =
        try_swap(&assets(), &config("lp", false), 1_000_000, &s("A"), &s("B"), &s("friend"))
            .unwrap();
    assert_eq!(
        response,
        HandleResponse {
            messages: vec![Message::Transfer {
                recipient: s("friend"),
                amount: 997_000_000_000_000_000,
                code_hash: s("hB"),
                address: s("B"),
            }],
            log: vec![
                text("action", "swap"),
                text("offer_asset", "A"),
                text("ask_asset", "B"),
                number("offer_amount", 1_000_000),
                number("return_amount", 997_000_000_000_000_000),
            ],
        }
    );
}

#[test]
fn swap_errors() {
    let a = assets();
    assert_eq!(
        try_swap(&a, &config("lp", true), 1, &s("A"), &s("B"), &s("f")),
        Err(PoolError::PoolHalted)
    );
    assert_eq!(
        try_swap(&a, &config("lp", false), 1, &s("A"), &s("X"), &s("f")),
        Err(PoolError::UnsupportedToken)
    );
    assert_eq!(
        try_swap(&a, &config("lp", false), 1, &s("A"), &s("A"), &s("f")),
        Err(PoolError::UnsupportedToken)
    );
    assert_eq!(
        try_swap(&a, &config("lp", false), u128::MAX, &s("A"), &s("B"), &s("f")),
        Err(PoolError::ArithmeticOverflow)
    );
    let mut broken = config("lp", false);
    broken.swap_fee_denom = 0;
    assert_eq!(
        try_swap(&a, &broken, 1, &s("A"), &s("B"), &s("f")),
        Err(PoolError::ArithmeticError)
    );
}

#[test]
fn receive_swap_from_a_token_of_the_pool() {
    let a = assets();
    let c = config("lp", false);
    let to_friend = Snip20ReceiveMsg::Swap { to_token: s("A"), recipient: Some(s("friend")) };
    let to_sender = Snip20ReceiveMsg::Swap { to_token: s("A"), recipient: None };
    let amount = 2_000_000_000_000_000_000;
    assert_eq!(
        receive_snip20(&a, &c, &env("B"), &s("user"), amount, &to_friend, &no_pool()),
        try_swap(&a, &c, amount, &s("B"), &s("A"), &s("friend"))
    );
    let paid = receive_snip20(&a, &c, &env("B"), &s("user"), amount, &to_sender, &no_pool());
    assert_eq!(paid, try_swap(&a, &c, amount, &s("B"), &s("A"), &s("user")));
    assert_eq!(
        paid.unwrap().messages,
        vec![Message::Transfer {
            recipient: s("user"),
            amount: 1_994_000,
            code_hash: s("hA"),
            address: s("A"),
        }]
    );
}

#[test]
fn receive_swap_from_or_to_an_unknown_token() {
    let a = assets();
    let c = config("lp", true);
    let to_a = Snip20ReceiveMsg::Swap { to_token: s("A"), recipient: None };
    let to_x = Snip20ReceiveMsg::Swap { to_token: s("X"), recipient: None };
    assert_eq!(
        receive_snip20(&a, &c, &env("X"), &s("user"), 5, &to_a, &no_pool()),
        Err(PoolError::UnsupportedToken)
    );
    assert_eq!(
        receive_snip20(&a, &c, &env("B"), &s("user"), 5, &to_x, &no_pool()),
        Err(PoolError::UnsupportedToken)
    );
    assert_eq!(
        receive_snip20(&a, &c, &env("B"), &s("user"), 5, &to_a, &no_pool()),
        Err(PoolError::PoolHalted)
    );
}

#[test]
fn receive_withdrawal_from_the_share_token_only() {
    let a = assets();
    let c = config("lp", false);
    let msg = Snip20ReceiveMsg::WithdrawLiquidity {};
    assert_eq!(
        receive_snip20(&a, &c, &env("lp"), &s("user"), 25, &msg, &pool()),
        try_withdraw_liquidity(&c, &s("user"), 25, &pool())
    );
    assert!(receive_snip20(&a, &c, &env("lp"), &s("user"), 25, &msg, &pool()).is_ok());
    assert_eq!(
        receive_snip20(&a, &c, &env("A"), &s("user"), 25, &msg, &pool()),
        Err(PoolError::UnsupportedToken)
    );
    assert_eq!(authorize_withdrawal(&c, &env("lp")), Ok(()));
    assert_eq!(authorize_withdrawal(&c, &env("A")), Err(PoolError::UnsupportedToken));
}

#[test]
fn handle_dispatches() {
    let a = assets();
    let mut c = config("", false);
    let announced = handle(&a, &mut c, &env("lp"), &HandleMsg::PostInitialize {}, &no_pool());
    assert!(announced.is_ok());
    assert_eq!(c, config("lp", false));
    let again = handle(&a, &mut c, &env("lp2"), &HandleMsg::PostInitialize {}, &no_pool());
    assert_eq!(again, Err(PoolError::PermissionDenied));
    assert_eq!(c, config("lp", false));

    let deposits = vec![amount("A", "hA", 1)];
    let provide = HandleMsg::ProvideLiquidity { assets: deposits.clone(), cancel_if_no_bonus: None };
    assert_eq!(
        handle(&a, &mut c, &env("user"), &provide, &no_pool()),
        try_provide_liquidity(&a, &config("lp", false), &env("user"), &deposits, None)
    );
    assert_eq!(c, config("lp", false));

    let withdrawal = HandleMsg::Receive {
        from: s("user"),
        msg: Snip20ReceiveMsg::WithdrawLiquidity {},
        amount: 100,
    };
    assert_eq!(
        handle(&a, &mut c, &env("lp"), &withdrawal, &pool()),
        try_withdraw_liquidity(&config("lp", false), &s("user"), 100, &pool())
    );
    let swap = HandleMsg::Receive {
        from: s("user"),
        msg: Snip20ReceiveMsg::Swap { to_token: s("B"), recipient: None },
        amount: 1_000_000,
    };
    assert_eq!(
        handle(&a, &mut c, &env("A"), &swap, &no_pool()),
        try_swap(&a, &config("lp", false), 1_000_000, &s("A"), &s("B"), &s("user"))
    );
}

#[test]
fn query_pool_pairs_tokens_with_balances() {
    assert_eq!(query_pool(&assets(), &vec![1000, 10], 100), pool());
    assert_eq!(query_pool(&vec![], &vec![], 0), no_pool());
}

#[test]
fn query_pair_info_lists_the_tokens() {
    assert_eq!(query_pair_info(&assets()), init_msg().assets);
}

#[test]
fn query_answers() {
    let a = assets();
    let c = config("lp", false);
    assert_eq!(
        query(&a, &c, QueryMsg::GetConfig {}, &pool()),
        QueryResponse::Config(config("lp", false))
    );
    assert_eq!(
        query(&a, &c, QueryMsg::GetTokens {}, &pool()),
        QueryResponse::Tokens(init_msg().assets)
    );
    assert_eq!(query(&a, &c, QueryMsg::GetPools {}, &pool()), QueryResponse::Pools(pool()));
}

#[test]
fn total_supply_must_be_public() {
    assert_eq!(query_token_total_supply(Some(5)), Ok(5));
    assert_eq!(query_token_total_supply(Some(0)), Ok(0));
    assert_eq!(query_token_total_supply(None), Err(PoolError::SupplyUnavailable));
}
