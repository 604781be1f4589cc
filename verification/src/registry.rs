//! The tokens that the pool holds.
//!
//! The registry is the list of tokens given when the pool is set up, each
//! with the number of decimals that the token itself reports. It is made
//! once and only read afterwards. A token is found by its address; where an
//! address occurs more than once, the first entry counts.

use crate::decimal::CANONICAL_DECIMALS;
use crate::error::PoolError;
use crate::msg::{result_view, result_views, views, Token, TokenInfo, TokenInfoView, TokenView};
use vstd::prelude::*;

verus! {

/// No entry has more than 18 decimals.
pub open spec fn registry_wf(registry: Seq<TokenInfoView>) -> bool {
    forall|i: int| 0 <= i < registry.len() ==> (#[trigger] registry[i]).decimals <= 18
}

/// Some entry has this address.
pub open spec fn holds(registry: Seq<TokenInfoView>, address: Seq<char>) -> bool {
    exists|i: int| 0 <= i < registry.len() && (#[trigger] registry[i]).address == address
}

/// Entry `i` has this address and no earlier entry has.
pub open spec fn is_first(registry: Seq<TokenInfoView>, address: Seq<char>, i: int) -> bool {
    &&& 0 <= i < registry.len()
    &&& registry[i].address == address
    &&& forall|j: int| 0 <= j < i ==> (#[trigger] registry[j]).address != address
}

/// The index of the first entry with this address, where there is one.
pub open spec fn first_position(registry: Seq<TokenInfoView>, address: Seq<char>) -> int {
    choose|i: int| is_first(registry, address, i)
}

/// What `lookup` returns: the first entry with this address.
pub open spec fn lookup_spec(registry: Seq<TokenInfoView>, address: Seq<char>) -> Option<
    TokenInfoView,
> {
    if holds(registry, address) {
        Some(registry[first_position(registry, address)])
    } else {
        None
    }
}

/// There is at most one first entry.
pub proof fn lemma_first_position(registry: Seq<TokenInfoView>, address: Seq<char>, i: int)
    requires
        is_first(registry, address, i),
    ensures
        holds(registry, address),
        first_position(registry, address) == i,
        lookup_spec(registry, address) == Some(registry[i]),
{
    let j = first_position(registry, address);
    assert(is_first(registry, address, j));
    if j < i {
        assert(registry[j].address != address);
    }
    if i < j {
        assert(registry[i].address != address);
    }
}

/// What is found in a well-formed registry has at most 18 decimals.
pub proof fn lemma_lookup_wf(registry: Seq<TokenInfoView>, address: Seq<char>)
    requires
        registry_wf(registry),
        holds(registry, address),
    ensures
        lookup_spec(registry, address) is Some,
        lookup_spec(registry, address)->0.decimals <= 18,
        lookup_spec(registry, address)->0.address == address,
{
    let w = choose|i: int| 0 <= i < registry.len() && (#[trigger] registry[i]).address == address;
    lemma_some_first(registry, address, w);
    let j = first_position(registry, address);
    assert(is_first(registry, address, j));
}

/// Where an entry has the address, some entry is the first to have it.
proof fn lemma_some_first(registry: Seq<TokenInfoView>, address: Seq<char>, w: int)
    requires
        0 <= w < registry.len(),
        registry[w].address == address,
    ensures
        exists|i: int| is_first(registry, address, i),
    decreases w,
{
    if forall|j: int| 0 <= j < w ==> (#[trigger] registry[j]).address != address {
        assert(is_first(registry, address, w));
    } else {
        let j = choose|j: int| 0 <= j < w && (#[trigger] registry[j]).address == address;
        lemma_some_first(registry, address, j);
    }
}

/// The view of an entry that was found, or `None`.
pub open spec fn found_view(found: Option<&TokenInfo>) -> Option<TokenInfoView> {
    match found {
        Some(info) => Some(info@),
        None => None,
    }
}

/// Finds the entry of the token at `address`: the first one with that
/// address, or `None` where the pool does not hold the token.
pub fn lookup<'a>(registry: &'a Vec<TokenInfo>, address: &String) -> (r: Option<&'a TokenInfo>)
    ensures
        found_view(r) == lookup_spec(views(registry@), address@),
        r is Some <==> holds(views(registry@), address@),
{
    let mut i: usize = 0;
    while i < registry.len()
        invariant
            i <= registry.len(),
            forall|j: int| 0 <= j < i ==> (#[trigger] views(registry@)[j]).address != address@,
        decreases registry.len() - i,
    {
        if registry[i].address == *address {
            proof {
                lemma_first_position(views(registry@), address@, i as int);
            }
            return Some(&registry[i]);
        }
        i += 1;
    }
    None
}

/// What `TokenInfo::new` returns.
pub open spec fn token_info_spec(token: TokenView, decimals: u8, viewing_key: Seq<char>) -> Result<
    TokenInfoView,
    PoolError,
> {
    if decimals > 18 {
        Err(PoolError::PrecisionExceeded)
    } else {
        Ok(
            TokenInfoView {
                address: token.address,
                code_hash: token.code_hash,
                viewing_key,
                decimals,
            },
        )
    }
}

impl TokenInfo {
    /// The registry entry of `token`, which reports `decimals` decimals.
    /// Fails with `PrecisionExceeded` where that is more than 18.
    pub fn new(token: &Token, decimals: u8, viewing_key: &String) -> (r: Result<
        TokenInfo,
        PoolError,
    >)
        ensures
            result_view(r) == token_info_spec(token@, decimals, viewing_key@),
    {
        if decimals > CANONICAL_DECIMALS {
            return Err(PoolError::PrecisionExceeded);
        }
        Ok(
            TokenInfo {
                address: token.address.clone(),
                code_hash: token.code_hash.clone(),
                viewing_key: viewing_key.clone(),
                decimals,
            },
        )
    }
}

/// What `register` returns: an entry for each token, in the order given,
/// unless some token reports more than 18 decimals.
pub open spec fn register_spec(
    tokens: Seq<TokenView>,
    decimals: Seq<u8>,
    viewing_key: Seq<char>,
) -> Result<Seq<TokenInfoView>, PoolError> {
    if exists|i: int| 0 <= i < tokens.len() && #[trigger] decimals[i] > 18 {
        Err(PoolError::PrecisionExceeded)
    } else {
        Ok(
            Seq::new(
                tokens.len(),
                |i: int|
                    TokenInfoView {
                        address: tokens[i].address,
                        code_hash: tokens[i].code_hash,
                        viewing_key,
                        decimals: decimals[i],
                    },
            ),
        )
    }
}

/// Makes the registry of the pool from its tokens and the decimals that each
/// token reports, `decimals[i]` for `tokens[i]`.
///
/// Fails with `PrecisionExceeded` where a token reports more than 18
/// decimals; otherwise every token has its entry, in the order given, with
/// `viewing_key` as its key.
pub fn register(tokens: &Vec<Token>, decimals: &Vec<u8>, viewing_key: &String) -> (r: Result<
    Vec<TokenInfo>,
    PoolError,
>)
    requires
        tokens.len() == decimals.len(),
    ensures
        result_views(r) == register_spec(views(tokens@), decimals@, viewing_key@),
        r is Ok ==> registry_wf(views(r->Ok_0@)),
{
    let mut registry: Vec<TokenInfo> = Vec::new();
    let mut i: usize = 0;
    while i < tokens.len()
        invariant
            i <= tokens.len(),
            tokens.len() == decimals.len(),
            registry.len() == i,
            forall|j: int| 0 <= j < i ==> #[trigger] decimals@[j] <= 18,
            forall|j: int|
                0 <= j < i ==> (#[trigger] registry@[j])@ == (TokenInfoView {
                    address: tokens@[j].address@,
                    code_hash: tokens@[j].code_hash@,
                    viewing_key: viewing_key@,
                    decimals: decimals@[j],
                }),
        decreases tokens.len() - i,
    {
        match TokenInfo::new(&tokens[i], decimals[i], viewing_key) {
            Ok(info) => {
                registry.push(info);
            },
            Err(e) => {
                assert(decimals@[i as int] > 18);
                return Err(e);
            },
        }
        i += 1;
    }
    proof {
        let expected = register_spec(views(tokens@), decimals@, viewing_key@);
        assert(expected is Ok);
        assert(views(registry@) =~= expected->Ok_0);
    }
    Ok(registry)
}

} // verus!
