use spjorts::query::{claim_from_query, id_in_query, parse_u64, query_id};
use spjorts::serve::SpjortState;

#[test]
fn decimal_ids() {
    assert_eq!(parse_u64("42"), Some(42));
    assert_eq!(parse_u64("+7"), Some(7));
    assert_eq!(parse_u64("007"), Some(7));
    assert_eq!(parse_u64("18446744073709551615"), Some(u64::MAX));
    assert_eq!(parse_u64("18446744073709551616"), None);
    assert_eq!(parse_u64("99999999999999999999"), None);
    assert_eq!(parse_u64(""), None);
    assert_eq!(parse_u64("+"), None);
    assert_eq!(parse_u64("-1"), None);
    assert_eq!(parse_u64("1a"), None);
    assert_eq!(parse_u64(" 1"), None);
}

#[test]
fn first_id_pair_counts() {
    let pairs = vec![
        ("x".to_string(), "1".to_string()),
        ("id".to_string(), "5".to_string()),
        ("id".to_string(), "6".to_string()),
    ];
    assert_eq!(id_in_query(&pairs), Some(5));
    assert_eq!(id_in_query(&vec![]), None);
    assert_eq!(id_in_query(&vec![("id".to_string(), "five".to_string())]), None);
}

#[test]
fn id_from_request_query() {
    assert_eq!(query_id("/connect?id=42"), Some(42));
    assert_eq!(query_id("/connect?x=1&id=5&id=6"), Some(5));
    assert_eq!(query_id("/connect?id=%34%32"), Some(42));
    assert_eq!(query_id("/connect?%69d=9"), Some(9));
    assert_eq!(query_id("/connect"), None);
    assert_eq!(query_id("/connect?id=abc"), None);
}

#[test]
fn claim_through_query() {
    let mut state = SpjortState::new();
    state.set_pairing_id(42);
    assert!(!claim_from_query(&mut state, "/connect?id=41"));
    assert!(claim_from_query(&mut state, "/connect?id=42"));
    assert!(!claim_from_query(&mut state, "/connect?id=42"));
    assert!(!claim_from_query(&mut state, "/connect"));
}
