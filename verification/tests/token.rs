use gmusic::error::Error;
use gmusic::token::{AuthToken, Token};

fn sample_token(access: &str, refresh: Option<&str>, issued_at_ms: u64, ttl_ms: u64) -> Token {
    Token {
        access_secret: access.to_owned(),
        refresh_secret: refresh.map(|s| s.to_owned()),
        issued_at_ms,
        ttl_ms,
    }
}

#[test]
fn token_freshness_window() {
    let mut cache = AuthToken::new();
    assert!(cache.requires_new_token(0));
    assert!(cache.requires_new_token(u64::MAX));

    cache.set_token(sample_token("a", Some("r"), 100, 50));
    // Fresh on [T, T + E) ...
    assert!(!cache.requires_new_token(100));
    assert!(!cache.requires_new_token(125));
    assert!(!cache.requires_new_token(149));
    // ... and stale from T + E on.
    assert!(cache.requires_new_token(150));
    assert!(cache.requires_new_token(151));
    assert!(cache.requires_new_token(10_000));
    // A clock before the issue instant is not stale either.
    assert!(!cache.requires_new_token(99));
}

#[test]
fn zero_ttl_token_is_immediately_stale() {
    let mut cache = AuthToken::new();
    cache.set_token(sample_token("a", Some("r"), 100, 0));
    assert!(cache.requires_new_token(100));
}

#[test]
fn refresh_keeps_refresh_secret() {
    let mut cache = AuthToken::new();
    cache.set_token(sample_token("old-access", Some("keep-me"), 0, 10));
    cache.set_access_token("new-access".to_owned(), 3600, 500);
    let token = cache.get_token().unwrap();
    assert_eq!(token.refresh_secret.as_deref(), Some("keep-me"));
    assert_eq!(token.access_secret, "new-access");
    assert_eq!(token.issued_at_ms, 500);
    assert_eq!(token.ttl_ms, 3600);
}

#[test]
fn empty_cache_is_unauthenticated() {
    let cache: AuthToken = AuthToken::new();
    assert!(!cache.has_token());
    assert!(matches!(cache.get_token(), Err(Error::Unauthenticated)));
    assert!(matches!(cache.get_auth_header(), Err(Error::Unauthenticated)));
    assert!(matches!(cache.refresh_secret(), Err(Error::Unauthenticated)));
}

#[test]
fn missing_refresh_secret_is_reported() {
    let mut cache = AuthToken::new();
    cache.set_token(sample_token("a", None, 0, 10));
    assert!(matches!(cache.refresh_secret(), Err(Error::RefreshTokenMissing)));
}

#[test]
fn auth_header_value() {
    let mut cache = AuthToken::new();
    cache.set_token(sample_token("abc", Some("r"), 0, 10));
    assert_eq!(cache.get_auth_header().unwrap(), "Bearer abc");
    assert_eq!(cache.refresh_secret().unwrap(), "r");
    assert!(cache.has_token());
}

#[test]
fn refresh_on_empty_cache_leaves_it_empty() {
    let mut cache = AuthToken::new();
    cache.set_access_token("x".to_owned(), 10, 0);
    assert!(!cache.has_token());
}
