use stream_stash::google_auth::{
    google_issuers, parse_max_age, token_key_id, token_validation_failed, user_from_claims,
    CachedKeys, GoogleAuthError, GoogleAuthService, GoogleKey, IdTokenClaims, VerifiedUser,
    GOOGLE_CERTS_URL,
};

fn user(email: Option<&str>, email_verified: Option<bool>, hd: Option<&str>) -> VerifiedUser {
    VerifiedUser {
        sub: "1234567890".to_string(),
        email: email.map(|e| e.to_string()),
        email_verified,
        name: Some("Jane".to_string()),
        picture: None,
        hosted_domain: hd.map(|h| h.to_string()),
    }
}

fn claims(email: Option<&str>, email_verified: Option<bool>, hd: Option<&str>) -> IdTokenClaims {
    IdTokenClaims {
        iss: "https://accounts.google.com".to_string(),
        sub: "1234567890".to_string(),
        aud: "client.apps.googleusercontent.com".to_string(),
        exp: 2000,
        iat: 1000,
        email: email.map(|e| e.to_string()),
        email_verified,
        name: Some("Jane".to_string()),
        picture: Some("https://example.com/p.png".to_string()),
        hd: hd.map(|h| h.to_string()),
    }
}

fn key(kid: &str, alg: &str, n: &str) -> GoogleKey {
    GoogleKey { kid: kid.to_string(), n: n.to_string(), e: "AQAB".to_string(), alg: alg.to_string() }
}

#[test]
fn parse_max_age_documented_example() {
    assert_eq!(parse_max_age("public, max-age=19591, must-revalidate, no-transform"), Some(19591));
}

#[test]
fn parse_max_age_edge_cases() {
    assert_eq!(parse_max_age("max-age=0"), Some(0));
    assert_eq!(parse_max_age("  max-age=42  "), Some(42));
    assert_eq!(parse_max_age("max-age=+7"), Some(7));
    assert_eq!(parse_max_age("no-cache"), None);
    assert_eq!(parse_max_age(""), None);
    assert_eq!(parse_max_age("max-age="), None);
    assert_eq!(parse_max_age("max-age=abc, max-age=5"), None);
    assert_eq!(parse_max_age("max-age=18446744073709551615"), Some(u64::MAX));
    assert_eq!(parse_max_age("max-age=18446744073709551616"), None);
    assert_eq!(parse_max_age("s-maxage=10, max-age=20"), Some(20));
    assert_eq!(parse_max_age("MAX-AGE=20"), None);
}

#[test]
fn gmail_addresses_are_authoritative() {
    assert!(user(Some("jane@gmail.com"), None, None).is_google_authoritative());
    assert!(user(Some("jane@gmail.com"), Some(false), None).is_google_authoritative());
}

#[test]
fn workspace_addresses_need_verified_email_and_domain() {
    assert!(user(Some("jane@corp.com"), Some(true), Some("corp.com")).is_google_authoritative());
    assert!(!user(Some("jane@corp.com"), Some(true), None).is_google_authoritative());
    assert!(!user(Some("jane@corp.com"), Some(false), Some("corp.com")).is_google_authoritative());
    assert!(!user(Some("jane@corp.com"), None, Some("corp.com")).is_google_authoritative());
}

#[test]
fn no_email_is_not_authoritative() {
    assert!(!user(None, Some(true), Some("corp.com")).is_google_authoritative());
    assert!(!user(Some("jane@GMAIL.com"), None, None).is_google_authoritative());
}

#[test]
fn csrf_check_outcomes() {
    let service = GoogleAuthService::new("client".to_string());
    assert!(matches!(service.verify_csrf(None, "t"), Err(GoogleAuthError::MissingCsrfCookie)));
    assert!(matches!(service.verify_csrf(Some("a"), "b"), Err(GoogleAuthError::CsrfMismatch)));
    assert!(service.verify_csrf(Some("same"), "same").is_ok());
    assert_eq!(service.client_id(), "client");
}

#[test]
fn error_messages() {
    assert_eq!(GoogleAuthError::InvalidToken("x".to_string()).message(), "Invalid ID token: x");
    assert_eq!(GoogleAuthError::CsrfMismatch.message(), "CSRF token mismatch");
    assert_eq!(GoogleAuthError::MissingCsrfCookie.message(), "Missing CSRF cookie");
    assert_eq!(
        GoogleAuthError::KeyFetchError("down".to_string()).message(),
        "Failed to fetch Google keys: down"
    );
    assert_eq!(GoogleAuthError::KeyNotFound("k".to_string()).message(), "Key not found for kid: k");
    assert_eq!(
        GoogleAuthError::GoogleNotAuthoritative.message(),
        "Google is not authoritative for this user"
    );
}

#[test]
fn issuers_and_certs_url() {
    assert_eq!(google_issuers(), vec!["https://accounts.google.com", "accounts.google.com"]);
    assert_eq!(GOOGLE_CERTS_URL, "https://www.googleapis.com/oauth2/v3/certs");
}

#[test]
fn claims_of_authoritative_user_become_user() {
    let u = user_from_claims(claims(Some("jane@gmail.com"), Some(true), None)).unwrap();
    assert_eq!(u.sub, "1234567890");
    assert_eq!(u.email.as_deref(), Some("jane@gmail.com"));
    assert_eq!(u.email_verified, Some(true));
    assert_eq!(u.name.as_deref(), Some("Jane"));
    assert_eq!(u.picture.as_deref(), Some("https://example.com/p.png"));
    assert_eq!(u.hosted_domain, None);
}

#[test]
fn claims_of_other_user_are_refused() {
    let r = user_from_claims(claims(Some("jane@corp.com"), Some(true), None));
    assert!(matches!(r, Err(GoogleAuthError::GoogleNotAuthoritative)));
}

#[test]
fn token_validation_error_text() {
    match token_validation_failed("ExpiredSignature") {
        GoogleAuthError::InvalidToken(s) => assert_eq!(s, "Token validation failed: ExpiredSignature"),
        other => panic!("unexpected {:?}", other),
    }
}

#[test]
fn key_id_read_from_token_header() {
    let token = "eyJhbGciOiJSUzI1NiIsImtpZCI6ImFiYzEyMyIsInR5cCI6IkpXVCJ9.e30.c2ln";
    assert_eq!(token_key_id(token).unwrap(), "abc123");
}

#[test]
fn token_header_without_key_id() {
    let token = "eyJhbGciOiJSUzI1NiIsInR5cCI6IkpXVCJ9.e30.c2ln";
    match token_key_id(token) {
        Err(GoogleAuthError::InvalidToken(s)) => assert_eq!(s, "Missing kid in header"),
        other => panic!("unexpected {:?}", other),
    }
}

#[test]
fn token_header_that_does_not_decode() {
    match token_key_id("not-a-token") {
        Err(GoogleAuthError::InvalidToken(s)) => assert!(s.starts_with("Invalid header: ")),
        other => panic!("unexpected {:?}", other),
    }
}

#[test]
fn empty_cache_is_stale_and_empty() {
    let cache = CachedKeys::new();
    assert!(cache.is_expired(0));
    assert!(cache.get("k1").is_none());
    assert!(cache.fresh_key("k1", 0).is_none());
    assert!(matches!(cache.key("k1"), Err(GoogleAuthError::KeyNotFound(k)) if k == "k1"));
}

#[test]
fn refresh_caches_only_rs256_keys() {
    let mut cache = CachedKeys::new();
    let keys = vec![key("k1", "RS256", "AQAB"), key("k2", "ES256", "AQAB"), key("k3", "RS256", "AQAB")];
    assert!(cache.refresh(keys, Some(3600), 1_000).is_ok());
    assert!(cache.get("k1").is_some());
    assert!(cache.get("k2").is_none());
    assert!(cache.get("k3").is_some());
    assert!(cache.key("k3").is_ok());
    assert!(matches!(cache.key("k2"), Err(GoogleAuthError::KeyNotFound(k)) if k == "k2"));
}

#[test]
fn refreshed_keys_stay_fresh_for_max_age() {
    let mut cache = CachedKeys::new();
    assert!(cache.refresh(vec![key("k1", "RS256", "AQAB")], Some(10), 5).is_ok());
    assert!(!cache.is_expired(5));
    assert!(!cache.is_expired(5 + 10 * 1_000_000_000 - 1));
    assert!(cache.is_expired(5 + 10 * 1_000_000_000));
    assert!(cache.fresh_key("k1", 6).is_some());
    assert!(cache.fresh_key("k1", 5 + 10 * 1_000_000_000).is_none());
}

#[test]
fn refresh_without_max_age_is_stale_at_once() {
    let mut cache = CachedKeys::new();
    assert!(cache.refresh(vec![key("k1", "RS256", "AQAB")], None, 5).is_ok());
    assert!(cache.is_expired(5));
    assert!(cache.get("k1").is_some());
    assert!(cache.fresh_key("k1", 5).is_none());
}

#[test]
fn refresh_replaces_previous_keys() {
    let mut cache = CachedKeys::new();
    assert!(cache.refresh(vec![key("old", "RS256", "AQAB")], Some(60), 0).is_ok());
    assert!(cache.refresh(vec![key("new", "RS256", "AQAB")], Some(60), 0).is_ok());
    assert!(cache.get("old").is_none());
    assert!(cache.get("new").is_some());
}

#[test]
fn refresh_stops_at_key_that_does_not_decode() {
    let mut cache = CachedKeys::new();
    let keys = vec![key("k1", "RS256", "AQAB"), key("bad", "RS256", "!!!"), key("k3", "RS256", "AQAB")];
    match cache.refresh(keys, Some(60), 0) {
        Err(GoogleAuthError::KeyFetchError(s)) => assert!(s.starts_with("Invalid key format: ")),
        other => panic!("unexpected {:?}", other),
    }
    assert!(cache.get("k1").is_some());
    assert!(cache.get("bad").is_none());
    assert!(cache.get("k3").is_none());
}

#[test]
fn bad_key_of_other_algorithm_is_skipped() {
    let mut cache = CachedKeys::new();
    let keys = vec![key("es", "ES256", "!!!"), key("k1", "RS256", "AQAB")];
    assert!(cache.refresh(keys, Some(60), 0).is_ok());
    assert!(cache.get("k1").is_some());
}

#[test]
fn tokens_are_checked_for_this_client() {
    let v = GoogleAuthService::new("client.apps.googleusercontent.com".to_string()).token_validation();
    assert_eq!(v.algorithm, "RS256");
    assert_eq!(v.audience, vec!["client.apps.googleusercontent.com".to_string()]);
    assert_eq!(v.issuers, vec!["https://accounts.google.com", "accounts.google.com"]);
    assert!(v.validate_exp);
    assert!(v.validate_nbf);
}
