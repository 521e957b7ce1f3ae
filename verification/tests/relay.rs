use cinnamon::relay::{NotFoundError, SecretRelay};
use cinnamon::text::str_equal;

#[test]
fn take_after_put_returns_the_secret() {
    let mut relay = SecretRelay::new();
    relay.put("T1", "S1");
    assert_eq!(relay.take("T1"), Ok("S1".to_string()));
}

#[test]
fn take_without_put_fails() {
    let mut relay = SecretRelay::new();
    assert!(relay.is_empty());
    assert_eq!(relay.take("T1"), Err(NotFoundError));
    assert!(relay.is_empty());
}

#[test]
fn take_of_another_token_fails_and_keeps_the_slot() {
    let mut relay = SecretRelay::new();
    relay.put("T1", "S1");
    assert_eq!(relay.take("T2"), Err(NotFoundError));
    assert!(!relay.is_empty());
    assert_eq!(relay.take("T1"), Ok("S1".to_string()));
}

#[test]
fn take_twice_fails_the_second_time() {
    let mut relay = SecretRelay::new();
    relay.put("T1", "S1");
    assert_eq!(relay.take("T1"), Ok("S1".to_string()));
    assert_eq!(relay.take("T1"), Err(NotFoundError));
    assert!(relay.is_empty());
}

#[test]
fn put_overwrites() {
    let mut relay = SecretRelay::new();
    relay.put("T1", "S1");
    relay.put("T2", "S2");
    assert_eq!(relay.take("T1"), Err(NotFoundError));
    assert_eq!(relay.take("T2"), Ok("S2".to_string()));
}

#[test]
fn put_of_the_same_token_keeps_the_later_secret() {
    let mut relay = SecretRelay::new();
    relay.put("T1", "S1");
    relay.put("T1", "S2");
    assert_eq!(relay.take("T1"), Ok("S2".to_string()));
}

#[test]
fn str_equal_compares_contents() {
    assert!(str_equal("abc", "abc"));
    assert!(str_equal("", ""));
    assert!(!str_equal("abc", "abd"));
    assert!(!str_equal("abc", "ab"));
}
