use torgate::registry::{default_token, IsolationRegistry, DEFAULT_TOKEN_ID, MAX_ISOLATION_ENTRIES};

#[test]
fn same_key_same_token() {
    let mut reg = IsolationRegistry::new();
    let a = reg.get_or_insert(42);
    let b = reg.get_or_insert(42);
    assert_eq!(a, b);
    assert_eq!(reg.len(), 1);
}

#[test]
fn distinct_keys_distinct_tokens() {
    let mut reg = IsolationRegistry::new();
    let a = reg.get_or_insert(1);
    let b = reg.get_or_insert(2);
    let c = reg.get_or_insert(3);
    assert_ne!(a, b);
    assert_ne!(b, c);
    assert_ne!(a, c);
    assert_eq!(reg.len(), 3);
}

#[test]
fn registry_tokens_never_alias_default() {
    let mut reg = IsolationRegistry::new();
    assert_eq!(default_token().id, DEFAULT_TOKEN_ID);
    for k in 0..100u64 {
        assert_ne!(reg.get_or_insert(k).id, DEFAULT_TOKEN_ID);
    }
}

#[test]
fn size_never_exceeds_bound() {
    let mut reg = IsolationRegistry::new();
    for k in 0..3000u64 {
        reg.get_or_insert(k);
        assert!(reg.len() <= MAX_ISOLATION_ENTRIES);
    }
}

#[test]
fn capacity_plus_one_insert_leaves_size_one() {
    let mut reg = IsolationRegistry::new();
    for k in 0..MAX_ISOLATION_ENTRIES as u64 {
        reg.get_or_insert(k);
    }
    assert_eq!(reg.len(), MAX_ISOLATION_ENTRIES);
    reg.get_or_insert(u64::MAX - 1);
    assert_eq!(reg.len(), 1);
}

#[test]
fn tokens_stay_stable_until_a_clear() {
    let mut reg = IsolationRegistry::new();
    let early = reg.get_or_insert(7);
    for k in 100..600u64 {
        reg.get_or_insert(k);
    }
    assert_eq!(reg.get_or_insert(7), early);
}

#[test]
fn headroom_holds_for_ordinary_lifetimes() {
    let mut reg = IsolationRegistry::new();
    assert!(reg.has_headroom());
    for k in 0..100u64 {
        reg.get_or_insert(k);
    }
    assert!(reg.has_headroom());
}
