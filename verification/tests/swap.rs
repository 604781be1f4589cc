use stable_pool::error::PoolError;
use stable_pool::msg::{Config, Token, TokenInfo};
use stable_pool::registry::register;
use stable_pool::swap::quote_swap;

fn registry() -> Vec<TokenInfo> {
    let tokens = vec![
        Token { address: "A".to_string(), code_hash: "hA".to_string() },
        Token { address: "B".to_string(), code_hash: "hB".to_string() },
        Token { address: "C".to_string(), code_hash: "hC".to_string() },
    ];
    register(&tokens, &vec![6, 18, 6], &"key".to_string()).unwrap()
}

fn fee(nom: u128, denom: u128) -> Config {
    Config {
        admin: "admin".to_string(),
        swap_fee_nom: nom,
        swap_fee_denom: denom,
        is_halted: false,
        round_down_pool_answer_to_nearest: true,
        lp_token_address: "lp".to_string(),
        lp_token_code_hash: "hlp".to_string(),
    }
}

fn quote(source: &str, destination: &str, amount: u128, config: &Config) -> Result<u128, PoolError> {
    quote_swap(&source.to_string(), &destination.to_string(), amount, &registry(), config)
}

#[test]
fn swap_six_to_eighteen_decimals_with_fee() {
    assert_eq!(quote("A", "B", 1_000_000, &fee(997, 1000)), Ok(997_000_000_000_000_000));
}

#[test]
fn swap_eighteen_to_six_decimals_with_fee() {
    assert_eq!(quote("B", "A", 1_000_000_000_000_000_000, &fee(997, 1000)), Ok(997_000));
    assert_eq!(quote("B", "A", 1_999_999_999_999, &fee(997, 1000)), Ok(0));
    assert_eq!(quote("B", "A", 2_000_000_000_000, &fee(1, 2)), Ok(1));
}

#[test]
fn swap_equal_decimals() {
    assert_eq!(quote("A", "C", 1000, &fee(997, 1000)), Ok(997));
    assert_eq!(quote("A", "C", 1001, &fee(997, 1000)), Ok(997));
    assert_eq!(quote("A", "C", 1, &fee(997, 1000)), Ok(0));
    assert_eq!(quote("A", "C", 1000, &fee(1, 1)), Ok(1000));
    assert_eq!(quote("A", "C", 1000, &fee(0, 1)), Ok(0));
}

#[test]
fn swap_rejects_unknown_and_equal_tokens() {
    let f = fee(997, 1000);
    assert_eq!(quote("X", "B", 1, &f), Err(PoolError::UnsupportedToken));
    assert_eq!(quote("A", "X", 1, &f), Err(PoolError::UnsupportedToken));
    assert_eq!(quote("A", "A", 1, &f), Err(PoolError::UnsupportedToken));
    assert_eq!(quote("X", "X", 1, &f), Err(PoolError::UnsupportedToken));
}

#[test]
fn swap_overflow_when_scaling_up() {
    assert_eq!(quote("A", "B", u128::MAX, &fee(997, 1000)), Err(PoolError::ArithmeticOverflow));
    assert_eq!(
        quote("A", "B", u128::MAX / 1_000_000_000_000 + 1, &fee(1, 1)),
        Err(PoolError::ArithmeticOverflow)
    );
    assert_eq!(
        quote("A", "B", u128::MAX / 1_000_000_000_000, &fee(1, 1)),
        Ok((u128::MAX / 1_000_000_000_000) * 1_000_000_000_000)
    );
}

#[test]
fn swap_fee_that_cannot_be_computed() {
    assert_eq!(quote("A", "C", 1000, &fee(997, 0)), Err(PoolError::ArithmeticError));
    assert_eq!(quote("A", "C", u128::MAX, &fee(2, 1)), Err(PoolError::ArithmeticError));
    assert_eq!(quote("A", "C", u128::MAX, &fee(997, 1000)), Ok(u128::MAX / 1000 * 997 + 453));
}

#[test]
fn swap_grows_with_the_amount() {
    let f = fee(997, 1000);
    for (source, destination) in [("A", "B"), ("B", "A"), ("A", "C")] {
        let mut last = 0u128;
        for amount in [0u128, 1, 2, 999, 1000, 1001, 1_000_000, 999_999_999_999, 1_000_000_000_000] {
            let q = quote(source, destination, amount, &f).unwrap();
            assert!(last <= q);
            last = q;
        }
    }
}
