use auth_core::store::Store;
use auth_core::token::{issue, validate_and_consume, TokenError, TokenKind, TOKEN_LENGTH};

#[test]
fn issued_token_consumes_exactly_once() {
    let mut store = Store::new();
    let token = issue(&mut store, TokenKind::Verification, 42, 1_000, 3_600).unwrap();
    assert_eq!(token.len(), TOKEN_LENGTH);

    let first = validate_and_consume(&mut store, TokenKind::Verification, &token, 1_000);
    assert_eq!(first, Ok(42));

    let second = validate_and_consume(&mut store, TokenKind::Verification, &token, 1_000);
    assert_eq!(second, Err(TokenError::TokenNotFound));
}

#[test]
fn expired_token_fails_and_row_remains() {
    let mut store = Store::new();
    store
        .insert_verification_token("stale123", 500, 7)
        .unwrap();

    let r = validate_and_consume(&mut store, TokenKind::Verification, "stale123", 500);
    assert_eq!(r, Err(TokenError::TokenExpired));

    // The stale row is left for cleanup: a later attempt still sees it.
    let again = validate_and_consume(&mut store, TokenKind::Verification, "stale123", 9_999);
    assert_eq!(again, Err(TokenError::TokenExpired));
    assert!(store.get_user_from_email_token("stale123").is_ok());
}

#[test]
fn expiry_boundary_is_inclusive() {
    // A token expiring exactly now is already expired: now >= active_expires.
    let mut store = Store::new();
    store.insert_reset_password_token("edge0000", 1_000, 7).unwrap();
    let r = validate_and_consume(&mut store, TokenKind::Reset, "edge0000", 1_000);
    assert_eq!(r, Err(TokenError::TokenExpired));

    // One second earlier it is still valid.
    let mut store2 = Store::new();
    store2.insert_reset_password_token("edge0000", 1_000, 7).unwrap();
    let r2 = validate_and_consume(&mut store2, TokenKind::Reset, "edge0000", 999);
    assert_eq!(r2, Ok(7));
}

#[test]
fn unknown_token_not_found() {
    let mut store = Store::new();
    let r = validate_and_consume(&mut store, TokenKind::Verification, "missing1", 0);
    assert_eq!(r, Err(TokenError::TokenNotFound));
}

#[test]
fn kinds_are_stored_separately() {
    let mut store = Store::new();
    store.insert_verification_token("sametokn", 2_000, 1).unwrap();
    // The same string can live in the reset table independently.
    store.insert_reset_password_token("sametokn", 2_000, 2).unwrap();

    let r = validate_and_consume(&mut store, TokenKind::Reset, "sametokn", 100);
    assert_eq!(r, Ok(2));
    // The verification-side row is untouched.
    let v = validate_and_consume(&mut store, TokenKind::Verification, "sametokn", 100);
    assert_eq!(v, Ok(1));
}

#[test]
fn duplicate_token_insert_is_refused() {
    let mut store = Store::new();
    store.insert_verification_token("dupdupdu", 2_000, 1).unwrap();
    let second = store.insert_verification_token("dupdupdu", 3_000, 2);
    assert!(matches!(second, Err(auth_core::Error::Internal)));
}

#[test]
fn minted_tokens_are_alphanumeric() {
    let token = auth_core::ext::generate_verification_token(32);
    assert_eq!(token.chars().count(), 32);
    assert!(token.chars().all(|c| c.is_ascii_alphanumeric()));
    // Length is honoured exactly, not merely bounded.
    assert_eq!(auth_core::ext::generate_verification_token(0).len(), 0);
}

#[test]
fn ttl_saturates_at_the_largest_timestamp() {
    let mut store = Store::new();
    let token = issue(&mut store, TokenKind::Reset, 9, i64::MAX - 1, u64::MAX).unwrap();
    let row = store.get_user_from_reset_password_token(&token).unwrap();
    assert_eq!(row.active_expires, i64::MAX);
}
