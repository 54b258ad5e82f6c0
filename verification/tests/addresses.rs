use dgc_core::address::get_dgc_prefix;
use dgc_core::address::hash;
use dgc_core::address::kind_codes_distinct;
use dgc_core::address::make_balance_state_address;
use dgc_core::address::make_buy_state_address;
use dgc_core::address::make_credit_state_address;
use dgc_core::address::make_exchange_state_address;
use dgc_core::address::make_sell_state_address;

#[test]
fn namespace_prefix_is_truncated_digest() {
    // First six hex characters of SHA-512("dgc-core").
    let p = get_dgc_prefix();
    assert_eq!(p, "d485d4");
    assert_eq!(p.len(), 6);
}

#[test]
fn hash_truncates_the_hex_digest() {
    let full = hash("alice", 128);
    assert_eq!(full.len(), 128);
    assert!(full.chars().all(|c| c.is_ascii_hexdigit()));
    assert_eq!(hash("alice", 62), full[..62].to_string());
    assert_eq!(hash("alice", 0), "");
    assert_eq!(hash("alice", 129), "");
}

#[test]
fn every_key_is_seventy_characters() {
    assert_eq!(make_balance_state_address("alice").len(), 70);
    assert_eq!(make_exchange_state_address("USD").len(), 70);
    assert_eq!(make_credit_state_address("alice", "USD").len(), 70);
    assert_eq!(make_sell_state_address("USD", "1234").len(), 70);
    assert_eq!(make_buy_state_address("USD", "1234").len(), 70);
}

#[test]
fn key_layout_is_prefix_code_and_hash() {
    let a = make_balance_state_address("alice");
    let expected = format!("{}{}{}", hash("dgc-core", 6), hash("balance", 2), hash("alice", 62));
    assert_eq!(a, expected);
    assert_eq!(&a[..6], "d485d4");
    assert_eq!(&a[6..8], "b7");
}

#[test]
fn key_derivation_is_deterministic() {
    assert_eq!(make_balance_state_address("alice"), make_balance_state_address("alice"));
    assert_eq!(
        make_credit_state_address("alice", "USD"),
        make_credit_state_address("alice", "USD")
    );
    assert_ne!(make_balance_state_address("alice"), make_balance_state_address("bob"));
}

#[test]
fn different_kinds_never_share_a_key() {
    assert!(kind_codes_distinct());
    let id = "alice";
    let cur = "alice";
    let balance = make_balance_state_address(id);
    let exchange = make_exchange_state_address(id);
    let credit = make_credit_state_address(id, cur);
    let sell = make_sell_state_address(id, cur);
    let buy = make_buy_state_address(id, cur);
    let keys = [balance, exchange, credit, sell, buy];
    for i in 0..keys.len() {
        for j in 0..keys.len() {
            if i != j {
                assert_ne!(keys[i], keys[j]);
            }
        }
    }
}
