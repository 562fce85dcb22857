use catalysh::errors::CoreError;
use catalysh::token::{Token, TokenCache, TokenState, TOKEN_TTL};

fn cached(value: &str, obtained_at: u64, expires_at: u64) -> TokenCache {
    TokenCache::from_loaded(Some(Token {
        value: value.to_string(),
        obtained_at,
        expires_at,
    }))
}

#[test]
fn ttl_is_one_hour() {
    assert_eq!(TOKEN_TTL, 3600);
}

#[test]
fn token_valid_before_expiry_needs_no_network() {
    let cache = cached("tok", 1000, 4600);
    assert_eq!(cache.state(2000), TokenState::Valid);
    assert!(!cache.needs_refresh(2000));
    let token = cache.get_valid_token(2000).unwrap();
    assert_eq!(token.value, "tok");
    assert_eq!(token.obtained_at, 1000);
    assert_eq!(token.expires_at, 4600);
}

#[test]
fn token_expired_at_expiry_instant() {
    let cache = cached("tok", 1000, 4600);
    assert_eq!(cache.state(4600), TokenState::Expired);
    assert_eq!(cache.state(5000), TokenState::Expired);
    assert!(cache.needs_refresh(5000));
    assert!(cache.get_valid_token(5000).is_none());
}

#[test]
fn expired_token_refreshes_with_one_authentication() {
    let mut cache = cached("tok", 1000, 4600);
    let now = 5000;
    assert!(cache.needs_refresh(now));
    // Exactly one re-authentication call: one successful reply installs a
    // valid token, after which no further refresh is needed.
    let fresh = cache
        .process_auth_reply(200, Some("tok2".to_string()), now)
        .unwrap();
    assert_eq!(fresh.value, "tok2");
    assert_eq!(fresh.obtained_at, 5000);
    assert_eq!(fresh.expires_at, 5000 + TOKEN_TTL);
    assert!(!cache.needs_refresh(now));
    assert_eq!(cache.get_valid_token(now).unwrap().value, "tok2");
}

#[test]
fn empty_cache_is_absent() {
    let cache = TokenCache::new();
    assert_eq!(cache.state(0), TokenState::Absent);
    assert!(cache.get_valid_token(0).is_none());
}

#[test]
fn invalidate_forces_reauthentication() {
    let mut cache = cached("tok", 1000, 4600);
    cache.invalidate();
    assert_eq!(cache.state(2000), TokenState::Absent);
    assert!(cache.needs_refresh(2000));
}

#[test]
fn auth_reply_401_is_terminal_and_keeps_cache() {
    let mut cache = cached("tok", 1000, 4600);
    let err = cache.process_auth_reply(401, None, 5000).unwrap_err();
    assert_eq!(err, CoreError::AuthenticationFailed);
    // The cache row was not touched.
    assert_eq!(cache.get_valid_token(2000).unwrap().value, "tok");
}

#[test]
fn auth_reply_5xx_is_transport_error() {
    let mut cache = TokenCache::new();
    let err = cache.process_auth_reply(503, None, 5000).unwrap_err();
    assert_eq!(err, CoreError::TransportError);
}

#[test]
fn auth_reply_other_status_is_surfaced_verbatim() {
    let mut cache = TokenCache::new();
    let err = cache.process_auth_reply(418, None, 5000).unwrap_err();
    assert_eq!(err, CoreError::RequestFailed(418));
}

#[test]
fn auth_reply_success_without_token_body_is_transport_error() {
    let mut cache = TokenCache::new();
    let err = cache.process_auth_reply(200, None, 5000).unwrap_err();
    assert_eq!(err, CoreError::TransportError);
}

#[test]
fn token_validity_boundaries() {
    let cache = cached("tok", 1000, 4600);
    assert_eq!(cache.state(1000), TokenState::Valid);
    assert_eq!(cache.state(4599), TokenState::Valid);
    assert_eq!(cache.state(999), TokenState::Expired);
    assert_eq!(cache.state(4600), TokenState::Expired);
}

#[test]
fn token_from_the_future_is_not_valid() {
    let cache = cached("tok", 1000, 4600);
    assert_eq!(cache.state(500), TokenState::Expired);
    assert!(cache.get_valid_token(500).is_none());
}
