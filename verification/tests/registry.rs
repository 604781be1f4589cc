use stable_pool::error::PoolError;
use stable_pool::msg::{Token, TokenInfo};
use stable_pool::registry::{lookup, register};

fn token(address: &str) -> Token {
    Token { address: address.to_string(), code_hash: format!("hash-of-{}", address) }
}

#[test]
fn register_keeps_order_and_decimals() {
    let tokens = vec![token("a"), token("b"), token("c")];
    let registry = register(&tokens, &vec![6, 18, 0], &"key".to_string()).unwrap();
    assert_eq!(
        registry,
        vec![
            TokenInfo {
                address: "a".to_string(),
                code_hash: "hash-of-a".to_string(),
                viewing_key: "key".to_string(),
                decimals: 6,
            },
            TokenInfo {
                address: "b".to_string(),
                code_hash: "hash-of-b".to_string(),
                viewing_key: "key".to_string(),
                decimals: 18,
            },
            TokenInfo {
                address: "c".to_string(),
                code_hash: "hash-of-c".to_string(),
                viewing_key: "key".to_string(),
                decimals: 0,
            },
        ]
    );
}

#[test]
fn register_nothing() {
    assert_eq!(register(&vec![], &vec![], &"key".to_string()), Ok(vec![]));
}

#[test]
fn register_rejects_nineteen_decimals() {
    let tokens = vec![token("a"), token("b")];
    assert_eq!(
        register(&tokens, &vec![18, 19], &"key".to_string()),
        Err(PoolError::PrecisionExceeded)
    );
    assert_eq!(
        register(&tokens, &vec![255, 6], &"key".to_string()),
        Err(PoolError::PrecisionExceeded)
    );
}

#[test]
fn token_info_new_checks_decimals() {
    let info = TokenInfo::new(&token("a"), 18, &"key".to_string()).unwrap();
    assert_eq!(info.address, "a");
    assert_eq!(info.code_hash, "hash-of-a");
    assert_eq!(info.viewing_key, "key");
    assert_eq!(info.decimals, 18);
    assert_eq!(
        TokenInfo::new(&token("a"), 19, &"key".to_string()),
        Err(PoolError::PrecisionExceeded)
    );
}

#[test]
fn lookup_finds_by_address() {
    let tokens = vec![token("a"), token("b")];
    let registry = register(&tokens, &vec![6, 18], &"key".to_string()).unwrap();
    assert_eq!(lookup(&registry, &"b".to_string()).map(|t| t.decimals), Some(18));
    assert_eq!(lookup(&registry, &"a".to_string()), Some(&registry[0]));
    assert_eq!(lookup(&registry, &"c".to_string()), None);
    assert_eq!(lookup(&registry, &"hash-of-a".to_string()), None);
    assert_eq!(lookup(&vec![], &"a".to_string()), None);
}

#[test]
fn lookup_takes_the_first_of_two() {
    let tokens = vec![token("a"), token("b"), token("a")];
    let registry = register(&tokens, &vec![6, 18, 9], &"key".to_string()).unwrap();
    assert_eq!(lookup(&registry, &"a".to_string()).map(|t| t.decimals), Some(6));
}

#[test]
fn token_clone_is_equal() {
    let t = token("a");
    assert_eq!(t.clone(), t);
}
