//! What the pool hands back to its host: instructions for other contracts
//! and a log.
//!
//! The pool moves no token itself. It answers a request with the list of
//! instructions that the host is to carry out, in order, and with key-value
//! pairs for the host's event log. Amounts in the log are numbers; the host
//! writes them out.

use crate::msg::{
    views, Config, ConfigView, Token, TokenAmount, TokenAmountView, TokenInfo, TokenInfoView,
    TokenView,
};
use vstd::prelude::*;

verus! {

/// Who calls, and where the pool itself lives.
#[derive(Clone, Debug, PartialEq)]
pub struct Env {
    /// The address that sent the request.
    pub sender: String,
    /// The address of the pool.
    pub contract_address: String,
    /// The hash of the pool's code.
    pub contract_code_hash: String,
}

pub struct EnvView {
    pub sender: Seq<char>,
    pub contract_address: Seq<char>,
    pub contract_code_hash: Seq<char>,
}

impl View for Env {
    type V = EnvView;

    open spec fn view(&self) -> EnvView {
        EnvView {
            sender: self.sender@,
            contract_address: self.contract_address@,
            contract_code_hash: self.contract_code_hash@,
        }
    }
}

/// The settings with which the share token is created.
#[derive(Clone, Debug, PartialEq)]
pub struct ShareTokenInit {
    pub name: String,
    pub admin: String,
    pub symbol: String,
    pub decimals: u8,
    pub prng_seed: Vec<u8>,
    pub public_total_supply: bool,
    pub enable_deposit: bool,
    pub enable_redeem: bool,
    pub enable_mint: bool,
    pub enable_burn: bool,
    /// The contract that the new token calls once it exists, and the hash
    /// of that contract's code.
    pub callback_address: String,
    pub callback_code_hash: String,
}

pub struct ShareTokenInitView {
    pub name: Seq<char>,
    pub admin: Seq<char>,
    pub symbol: Seq<char>,
    pub decimals: u8,
    pub prng_seed: Seq<u8>,
    pub public_total_supply: bool,
    pub enable_deposit: bool,
    pub enable_redeem: bool,
    pub enable_mint: bool,
    pub enable_burn: bool,
    pub callback_address: Seq<char>,
    pub callback_code_hash: Seq<char>,
}

impl View for ShareTokenInit {
    type V = ShareTokenInitView;

    open spec fn view(&self) -> ShareTokenInitView {
        ShareTokenInitView {
            name: self.name@,
            admin: self.admin@,
            symbol: self.symbol@,
            decimals: self.decimals,
            prng_seed: self.prng_seed@,
            public_total_supply: self.public_total_supply,
            enable_deposit: self.enable_deposit,
            enable_redeem: self.enable_redeem,
            enable_mint: self.enable_mint,
            enable_burn: self.enable_burn,
            callback_address: self.callback_address@,
            callback_code_hash: self.callback_code_hash@,
        }
    }
}

/// An instruction for another contract. `address` and `code_hash` name the
/// token contract that is to carry it out.
#[derive(Clone, Debug, PartialEq)]
pub enum Message {
    /// Set the key under which the pool reads its balance of the token.
    SetViewingKey { key: String, code_hash: String, address: String },
    /// Have the token notify the pool, whose code has the hash
    /// `own_code_hash`, of every amount that the pool receives.
    RegisterReceive { own_code_hash: String, code_hash: String, address: String },
    /// Create the share token from the code with this id and hash.
    InstantiateShareToken { code_id: u64, code_hash: String, label: String, init: ShareTokenInit },
    /// Move `amount` from `owner` to `recipient`, on the owner's allowance.
    TransferFrom { owner: String, recipient: String, amount: u128, code_hash: String, address: String },
    /// Move `amount` from the pool to `recipient`.
    Transfer { recipient: String, amount: u128, code_hash: String, address: String },
    /// Create `amount` of the token for `recipient`.
    Mint { recipient: String, amount: u128, code_hash: String, address: String },
    /// Destroy `amount` of the pool's own holding of the token.
    Burn { amount: u128, code_hash: String, address: String },
}

pub enum MessageView {
    SetViewingKey { key: Seq<char>, code_hash: Seq<char>, address: Seq<char> },
    RegisterReceive { own_code_hash: Seq<char>, code_hash: Seq<char>, address: Seq<char> },
    InstantiateShareToken {
        code_id: u64,
        code_hash: Seq<char>,
        label: Seq<char>,
        init: ShareTokenInitView,
    },
    TransferFrom {
        owner: Seq<char>,
        recipient: Seq<char>,
        amount: u128,
        code_hash: Seq<char>,
        address: Seq<char>,
    },
    Transfer { recipient: Seq<char>, amount: u128, code_hash: Seq<char>, address: Seq<char> },
    Mint { recipient: Seq<char>, amount: u128, code_hash: Seq<char>, address: Seq<char> },
    Burn { amount: u128, code_hash: Seq<char>, address: Seq<char> },
}

impl View for Message {
    type V = MessageView;

    open spec fn view(&self) -> MessageView {
        match *self {
            Message::SetViewingKey { key, code_hash, address } => MessageView::SetViewingKey {
                key: key@,
                code_hash: code_hash@,
                address: address@,
            },
            Message::RegisterReceive {
                own_code_hash,
                code_hash,
                address,
            } => MessageView::RegisterReceive {
                own_code_hash: own_code_hash@,
                code_hash: code_hash@,
                address: address@,
            },
            Message::InstantiateShareToken {
                code_id,
                code_hash,
                label,
                init,
            } => MessageView::InstantiateShareToken {
                code_id,
                code_hash: code_hash@,
                label: label@,
                init: init@,
            },
            Message::TransferFrom {
                owner,
                recipient,
                amount,
                code_hash,
                address,
            } => MessageView::TransferFrom {
                owner: owner@,
                recipient: recipient@,
                amount,
                code_hash: code_hash@,
                address: address@,
            },
            Message::Transfer { recipient, amount, code_hash, address } => MessageView::Transfer {
                recipient: recipient@,
                amount,
                code_hash: code_hash@,
                address: address@,
            },
            Message::Mint { recipient, amount, code_hash, address } => MessageView::Mint {
                recipient: recipient@,
                amount,
                code_hash: code_hash@,
                address: address@,
            },
            Message::Burn { amount, code_hash, address } => MessageView::Burn {
                amount,
                code_hash: code_hash@,
                address: address@,
            },
        }
    }
}

/// The value of a log entry.
#[derive(Clone, Debug, PartialEq)]
pub enum LogValue {
    Text(String),
    Amount(u128),
    /// An amount of the token at `address`.
    Asset { address: String, amount: u128 },
}

pub enum LogValueView {
    Text(Seq<char>),
    Amount(u128),
    Asset { address: Seq<char>, amount: u128 },
}

impl View for LogValue {
    type V = LogValueView;

    open spec fn view(&self) -> LogValueView {
        match *self {
            LogValue::Text(text) => LogValueView::Text(text@),
            LogValue::Amount(amount) => LogValueView::Amount(amount),
            LogValue::Asset { address, amount } => LogValueView::Asset { address: address@, amount },
        }
    }
}

/// A key-value pair for the host's event log.
#[derive(Clone, Debug, PartialEq)]
pub struct LogEntry {
    pub key: String,
    pub value: LogValue,
}

pub struct LogEntryView {
    pub key: Seq<char>,
    pub value: LogValueView,
}

impl View for LogEntry {
    type V = LogEntryView;

    open spec fn view(&self) -> LogEntryView {
        LogEntryView { key: self.key@, value: self.value@ }
    }
}

/// The log entry `key: text`.
pub open spec fn log_text(key: Seq<char>, text: Seq<char>) -> LogEntryView {
    LogEntryView { key, value: LogValueView::Text(text) }
}

/// The log entry `key: amount`.
pub open spec fn log_amount(key: Seq<char>, amount: u128) -> LogEntryView {
    LogEntryView { key, value: LogValueView::Amount(amount) }
}

/// The log entry `key: amount of the token at address`.
pub open spec fn log_asset(key: Seq<char>, asset: TokenAmountView) -> LogEntryView {
    LogEntryView { key, value: LogValueView::Asset { address: asset.address, amount: asset.amount } }
}

impl LogEntry {
    /// The entry `key: text`.
    pub fn text(key: &str, text: &String) -> (r: LogEntry)
        ensures
            r@ == log_text(key@, text@),
    {
        LogEntry { key: key.to_owned(), value: LogValue::Text(text.clone()) }
    }

    /// The entry `key: amount`.
    pub fn amount(key: &str, amount: u128) -> (r: LogEntry)
        ensures
            r@ == log_amount(key@, amount),
    {
        LogEntry { key: key.to_owned(), value: LogValue::Amount(amount) }
    }

    /// The entry `key: amount of the token at address`.
    pub fn asset(key: &str, asset: &TokenAmount) -> (r: LogEntry)
        ensures
            r@ == log_asset(key@, asset@),
    {
        LogEntry {
            key: key.to_owned(),
            value: LogValue::Asset { address: asset.address.clone(), amount: asset.amount },
        }
    }
}

/// Instructions and log, as both kinds of answer hold them.
pub struct ResponseView {
    pub messages: Seq<MessageView>,
    pub log: Seq<LogEntryView>,
}

/// The answer to the request that sets the pool up.
#[derive(Clone, Debug, PartialEq)]
pub struct InitResponse {
    pub messages: Vec<Message>,
    pub log: Vec<LogEntry>,
}

impl View for InitResponse {
    type V = ResponseView;

    open spec fn view(&self) -> ResponseView {
        ResponseView { messages: views(self.messages@), log: views(self.log@) }
    }
}

/// The answer to a request that may change the pool.
#[derive(Clone, Debug, PartialEq)]
pub struct HandleResponse {
    pub messages: Vec<Message>,
    pub log: Vec<LogEntry>,
}

impl View for HandleResponse {
    type V = ResponseView;

    open spec fn view(&self) -> ResponseView {
        ResponseView { messages: views(self.messages@), log: views(self.log@) }
    }
}

/// What a new pool consists of: its registry, its settings, and the answer
/// to the request that set it up.
#[derive(Debug, PartialEq)]
pub struct Initialized {
    pub assets: Vec<TokenInfo>,
    pub config: Config,
    pub response: InitResponse,
}

pub struct InitializedView {
    pub assets: Seq<TokenInfoView>,
    pub config: ConfigView,
    pub response: ResponseView,
}

impl View for Initialized {
    type V = InitializedView;

    open spec fn view(&self) -> InitializedView {
        InitializedView {
            assets: views(self.assets@),
            config: self.config@,
            response: self.response@,
        }
    }
}

/// What the pool holds, as the token contracts report it: the pool's balance
/// of each asset, and the total supply of shares.
#[derive(Debug, PartialEq)]
pub struct PoolResponse {
    pub assets: Vec<TokenAmount>,
    pub total_share: u128,
}

pub struct PoolResponseView {
    pub assets: Seq<TokenAmountView>,
    pub total_share: u128,
}

impl View for PoolResponse {
    type V = PoolResponseView;

    open spec fn view(&self) -> PoolResponseView {
        PoolResponseView { assets: views(self.assets@), total_share: self.total_share }
    }
}

/// The answer to a question about the pool.
#[derive(Debug, PartialEq)]
pub enum QueryResponse {
    /// The settings.
    Config(Config),
    /// The tokens that the pool holds.
    Tokens(Vec<Token>),
    /// The balances and the total supply of shares.
    Pools(PoolResponse),
}

pub enum QueryResponseView {
    Config(ConfigView),
    Tokens(Seq<TokenView>),
    Pools(PoolResponseView),
}

impl View for QueryResponse {
    type V = QueryResponseView;

    open spec fn view(&self) -> QueryResponseView {
        match *self {
            QueryResponse::Config(config) => QueryResponseView::Config(config@),
            QueryResponse::Tokens(tokens) => QueryResponseView::Tokens(views(tokens@)),
            QueryResponse::Pools(pool) => QueryResponseView::Pools(pool@),
        }
    }
}

} // verus!
