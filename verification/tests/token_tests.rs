use save2read::auth::{generate_token, TokenError, TokenStorage};

#[test]
fn test_push_double_pop() {
    let mut token_storage = TokenStorage::new(10);
    token_storage.push(1, "token".to_string(), 0).unwrap();
    assert_eq!(token_storage.pop("token", 0).unwrap().unwrap(), 1);
    assert_eq!(token_storage.pop("token", 0).ok(), Some(None));
}

#[test]
fn test_multiple_push_double_pop() {
    let mut token_storage = TokenStorage::new(10);
    token_storage.push(1, "token1".to_string(), 0).unwrap();
    token_storage.push(2, "token2".to_string(), 0).unwrap();

    assert_eq!(token_storage.pop("token1", 0).unwrap().unwrap(), 1);
    assert_eq!(token_storage.pop("token1", 0).ok(), Some(None));

    assert_eq!(token_storage.pop("token2", 0).unwrap().unwrap(), 2);
    assert_eq!(token_storage.pop("token2", 0).ok(), Some(None));
}

#[test]
fn test_ttl() {
    let mut token_storage = TokenStorage::new(0);
    token_storage.push(1, "token".to_string(), 0).unwrap();
    assert_eq!(token_storage.pop("token", 0).ok(), Some(None));
}

#[test]
fn test_ttl_boundary() {
    // ttl 10, issued at 0: live through 9, expired from 10 on.
    let mut ts = TokenStorage::new(10);
    ts.push(5, "alive".to_string(), 0).unwrap();
    assert_eq!(ts.pop("alive", 9).unwrap(), Some(5));

    ts.push(5, "gone".to_string(), 0).unwrap();
    assert_eq!(ts.pop("gone", 10).unwrap(), None);
}

#[test]
fn test_collision_rejected() {
    let mut ts = TokenStorage::new(100);
    ts.push(1, "tok".to_string(), 0).unwrap();
    assert_eq!(ts.push(2, "tok".to_string(), 1), Err(TokenError::Collision));
    // The colliding issue must not have overwritten the original owner.
    assert_eq!(ts.pop("tok", 2).unwrap(), Some(1));
}

#[test]
fn test_reissue_after_redeem() {
    let mut ts = TokenStorage::new(100);
    ts.push(1, "tok".to_string(), 0).unwrap();
    assert_eq!(ts.pop("tok", 1).unwrap(), Some(1));
    assert!(ts.push(2, "tok".to_string(), 2).is_ok());
    assert_eq!(ts.pop("tok", 3).unwrap(), Some(2));
}

#[test]
fn test_reissue_after_expiry() {
    let mut ts = TokenStorage::new(10);
    ts.push(1, "tok".to_string(), 0).unwrap();
    // At 10 the first issue has expired, so the same token is free again.
    assert!(ts.push(2, "tok".to_string(), 10).is_ok());
    assert_eq!(ts.pop("tok", 11).unwrap(), Some(2));
}

#[test]
fn test_pop_unknown_token() {
    let mut ts = TokenStorage::new(10);
    assert_eq!(ts.pop("never-issued", 0).unwrap(), None);
}

#[test]
fn test_sweep_only_drops_expired() {
    let mut ts = TokenStorage::new(10);
    ts.push(1, "early".to_string(), 0).unwrap();
    ts.push(2, "late".to_string(), 5).unwrap();
    // At 12 the first token is past its ttl, the second is not.
    assert_eq!(ts.pop("early", 12).unwrap(), None);
    assert_eq!(ts.pop("late", 12).unwrap(), Some(2));
}

#[test]
fn test_generate_token_shape() {
    let tok = generate_token();
    assert_eq!(tok.chars().count(), 30);
    assert!(tok.chars().all(|c| c.is_ascii_alphanumeric()));
}
