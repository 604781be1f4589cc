//! The records that the pool keeps and the requests that it answers.
//!
//! Addresses, code hashes and keys are strings that the pool never looks
//! into; amounts are 128-bit unsigned integers. Each type has a view that
//! holds the same data as sequences and integers, and the contracts of the
//! crate are stated over these views.

use crate::error::PoolError;
use vstd::prelude::*;

verus! {

/// The views of the elements of a sequence, in order.
pub open spec fn views<T: View>(s: Seq<T>) -> Seq<T::V> {
    s.map_values(|t: T| t@)
}

/// The view of an optional string.
pub open spec fn option_view(o: Option<String>) -> Option<Seq<char>> {
    match o {
        Some(s) => Some(s@),
        None => None,
    }
}

/// The view of a result that may hold a record.
pub open spec fn result_view<T: View>(r: Result<T, PoolError>) -> Result<T::V, PoolError> {
    match r {
        Ok(v) => Ok(v@),
        Err(e) => Err(e),
    }
}

/// The view of a result that may hold a list of records.
pub open spec fn result_views<T: View>(r: Result<Vec<T>, PoolError>) -> Result<
    Seq<T::V>,
    PoolError,
> {
    match r {
        Ok(v) => Ok(views(v@)),
        Err(e) => Err(e),
    }
}

/// A token contract: where it lives and the hash of its code. Two tokens are
/// the same token when their addresses are equal.
#[derive(Debug, PartialEq)]
pub struct Token {
    pub address: String,
    pub code_hash: String,
}

pub struct TokenView {
    pub address: Seq<char>,
    pub code_hash: Seq<char>,
}

impl View for Token {
    type V = TokenView;

    open spec fn view(&self) -> TokenView {
        TokenView { address: self.address@, code_hash: self.code_hash@ }
    }
}

impl Clone for Token {
    fn clone(&self) -> (r: Self)
        ensures
            r@ == self@,
    {
        Token { address: self.address.clone(), code_hash: self.code_hash.clone() }
    }
}

/// An amount of a token, in the token's own precision.
#[derive(Debug, PartialEq)]
pub struct TokenAmount {
    pub address: String,
    pub code_hash: String,
    pub amount: u128,
}

pub struct TokenAmountView {
    pub address: Seq<char>,
    pub code_hash: Seq<char>,
    pub amount: u128,
}

impl View for TokenAmount {
    type V = TokenAmountView;

    open spec fn view(&self) -> TokenAmountView {
        TokenAmountView {
            address: self.address@,
            code_hash: self.code_hash@,
            amount: self.amount,
        }
    }
}

impl Clone for TokenAmount {
    fn clone(&self) -> (r: Self)
        ensures
            r@ == self@,
    {
        TokenAmount {
            address: self.address.clone(),
            code_hash: self.code_hash.clone(),
            amount: self.amount,
        }
    }
}

/// A token that the pool holds: the token, the key under which the pool
/// reads its own balance, and the number of decimals of the token's amounts.
#[derive(Debug, PartialEq)]
pub struct TokenInfo {
    pub address: String,
    pub code_hash: String,
    pub viewing_key: String,
    pub decimals: u8,
}

pub struct TokenInfoView {
    pub address: Seq<char>,
    pub code_hash: Seq<char>,
    pub viewing_key: Seq<char>,
    pub decimals: u8,
}

impl View for TokenInfo {
    type V = TokenInfoView;

    open spec fn view(&self) -> TokenInfoView {
        TokenInfoView {
            address: self.address@,
            code_hash: self.code_hash@,
            viewing_key: self.viewing_key@,
            decimals: self.decimals,
        }
    }
}

impl Clone for TokenInfo {
    fn clone(&self) -> (r: Self)
        ensures
            r@ == self@,
    {
        TokenInfo {
            address: self.address.clone(),
            code_hash: self.code_hash.clone(),
            viewing_key: self.viewing_key.clone(),
            decimals: self.decimals,
        }
    }
}

/// The settings of the pool.
///
/// `swap_fee_nom / swap_fee_denom` is the part of a swap's output that the
/// recipient keeps. `lp_token_address` is empty until the share token has
/// announced itself. `round_down_pool_answer_to_nearest` is kept and
/// reported but decides nothing: every quotient in the pool is rounded
/// down, which leaves the remainder with the pool.
#[derive(Debug, PartialEq)]
pub struct Config {
    pub admin: String,
    pub swap_fee_nom: u128,
    pub swap_fee_denom: u128,
    pub is_halted: bool,
    pub round_down_pool_answer_to_nearest: bool,
    pub lp_token_address: String,
    pub lp_token_code_hash: String,
}

pub struct ConfigView {
    pub admin: Seq<char>,
    pub swap_fee_nom: u128,
    pub swap_fee_denom: u128,
    pub is_halted: bool,
    pub round_down_pool_answer_to_nearest: bool,
    pub lp_token_address: Seq<char>,
    pub lp_token_code_hash: Seq<char>,
}

impl View for Config {
    type V = ConfigView;

    open spec fn view(&self) -> ConfigView {
        ConfigView {
            admin: self.admin@,
            swap_fee_nom: self.swap_fee_nom,
            swap_fee_denom: self.swap_fee_denom,
            is_halted: self.is_halted,
            round_down_pool_answer_to_nearest: self.round_down_pool_answer_to_nearest,
            lp_token_address: self.lp_token_address@,
            lp_token_code_hash: self.lp_token_code_hash@,
        }
    }
}

impl Clone for Config {
    fn clone(&self) -> (r: Self)
        ensures
            r@ == self@,
    {
        Config {
            admin: self.admin.clone(),
            swap_fee_nom: self.swap_fee_nom,
            swap_fee_denom: self.swap_fee_denom,
            is_halted: self.is_halted,
            round_down_pool_answer_to_nearest: self.round_down_pool_answer_to_nearest,
            lp_token_address: self.lp_token_address.clone(),
            lp_token_code_hash: self.lp_token_code_hash.clone(),
        }
    }
}

/// The request that sets the pool up.
#[derive(Clone, Debug, PartialEq)]
pub struct InitMsg {
    pub assets: Vec<Token>,
    pub initial_tokens_viewing_key: String,
    pub lp_token_code_id: u64,
    pub lp_token_code_hash: String,
    pub lp_token_prng_seed: Vec<u8>,
    pub lp_token_label: String,
    pub admin: String,
    pub swap_fee_nom: u128,
    pub swap_fee_denom: u128,
    pub is_halted: bool,
    pub round_down_pool_answer_to_nearest: bool,
}

pub struct InitMsgView {
    pub assets: Seq<TokenView>,
    pub initial_tokens_viewing_key: Seq<char>,
    pub lp_token_code_id: u64,
    pub lp_token_code_hash: Seq<char>,
    pub lp_token_prng_seed: Seq<u8>,
    pub lp_token_label: Seq<char>,
    pub admin: Seq<char>,
    pub swap_fee_nom: u128,
    pub swap_fee_denom: u128,
    pub is_halted: bool,
    pub round_down_pool_answer_to_nearest: bool,
}

impl View for InitMsg {
    type V = InitMsgView;

    open spec fn view(&self) -> InitMsgView {
        InitMsgView {
            assets: views(self.assets@),
            initial_tokens_viewing_key: self.initial_tokens_viewing_key@,
            lp_token_code_id: self.lp_token_code_id,
            lp_token_code_hash: self.lp_token_code_hash@,
            lp_token_prng_seed: self.lp_token_prng_seed@,
            lp_token_label: self.lp_token_label@,
            admin: self.admin@,
            swap_fee_nom: self.swap_fee_nom,
            swap_fee_denom: self.swap_fee_denom,
            is_halted: self.is_halted,
            round_down_pool_answer_to_nearest: self.round_down_pool_answer_to_nearest,
        }
    }
}

/// What a token contract tells the pool when the pool has received an
/// amount of that token.
#[derive(Clone, Debug, PartialEq)]
pub enum Snip20ReceiveMsg {
    /// Swap the amount for `to_token`, to be sent to `recipient` or, without
    /// one, back to the sender.
    Swap { to_token: String, recipient: Option<String> },
    /// The amount is shares; pay out their part of the pool.
    WithdrawLiquidity {  },
}

pub enum Snip20ReceiveMsgView {
    Swap { to_token: Seq<char>, recipient: Option<Seq<char>> },
    WithdrawLiquidity,
}

impl View for Snip20ReceiveMsg {
    type V = Snip20ReceiveMsgView;

    open spec fn view(&self) -> Snip20ReceiveMsgView {
        match *self {
            Snip20ReceiveMsg::Swap { to_token, recipient } => Snip20ReceiveMsgView::Swap {
                to_token: to_token@,
                recipient: option_view(recipient),
            },
            Snip20ReceiveMsg::WithdrawLiquidity {  } => Snip20ReceiveMsgView::WithdrawLiquidity,
        }
    }
}

/// A request that may change the pool.
#[derive(Clone, Debug, PartialEq)]
pub enum HandleMsg {
    /// A token contract reports that `from` has sent `amount` to the pool.
    Receive { from: String, msg: Snip20ReceiveMsg, amount: u128 },
    /// Deposit the listed amounts for shares.
    ProvideLiquidity { assets: Vec<TokenAmount>, cancel_if_no_bonus: Option<bool> },
    /// The share token announces itself.
    PostInitialize {  },
    /// Renew the keys under which the pool reads its balances.
    UpdateViewingKeys {  },
}

pub enum HandleMsgView {
    Receive { from: Seq<char>, msg: Snip20ReceiveMsgView, amount: u128 },
    ProvideLiquidity { assets: Seq<TokenAmountView>, cancel_if_no_bonus: Option<bool> },
    PostInitialize,
    UpdateViewingKeys,
}

impl View for HandleMsg {
    type V = HandleMsgView;

    open spec fn view(&self) -> HandleMsgView {
        match *self {
            HandleMsg::Receive { from, msg, amount } => HandleMsgView::Receive {
                from: from@,
                msg: msg@,
                amount,
            },
            HandleMsg::ProvideLiquidity { assets, cancel_if_no_bonus } => {
                HandleMsgView::ProvideLiquidity { assets: views(assets@), cancel_if_no_bonus }
            },
            HandleMsg::PostInitialize {  } => HandleMsgView::PostInitialize,
            HandleMsg::UpdateViewingKeys {  } => HandleMsgView::UpdateViewingKeys,
        }
    }
}

/// A question about the pool.
#[derive(Clone, Copy, Debug, PartialEq, Eq, Structural)]
pub enum QueryMsg {
    GetConfig {  },
    GetTokens {  },
    GetPools {  },
    GetMostNeededToken {  },
}

} // verus!
