use auth_service::revocation::RevocationStore;
use auth_service::token::{TokenError, TokenService, TOKEN_TTL_SECONDS};
use auth_service::Email;

fn service() -> TokenService {
    TokenService::new("a-process-wide-secret".to_string())
}

fn subject() -> Email {
    Email::parse("user@example.com".to_string()).unwrap()
}

#[test]
fn round_trip_before_expiry() {
    let ts = service();
    let token = ts.mint(&subject(), 1_000);
    let got = ts.validate(&token, 1_000).unwrap();
    assert_eq!(got, "user@example.com");
    let later = ts.validate(&token, 1_000 + TOKEN_TTL_SECONDS - 1).unwrap();
    assert_eq!(later, "user@example.com");
}

#[test]
fn token_embeds_expiry_in_first_twenty_digits() {
    let ts = service();
    let token = ts.mint(&subject(), 0);
    assert_eq!(&token[0..20], "00000000000000000600");
}

#[test]
fn rejected_at_and_after_expiry() {
    let ts = service();
    let token = ts.mint(&subject(), 1_000);
    assert_eq!(ts.validate(&token, 1_000 + TOKEN_TTL_SECONDS), Err(TokenError::Expired));
    assert_eq!(ts.validate(&token, u64::MAX), Err(TokenError::Expired));
}

#[test]
fn malformed_token_rejected() {
    let ts = service();
    assert_eq!(ts.validate("", 0), Err(TokenError::Malformed));
    assert_eq!(ts.validate("short", 0), Err(TokenError::Malformed));
    assert_eq!(
        ts.validate("xxxxxxxxxxxxxxxxxxxxyyyyyyyyuser@example.com", 0),
        Err(TokenError::Malformed)
    );
}

#[test]
fn tampered_token_rejected() {
    let ts = service();
    let token = ts.mint(&subject(), 1_000);
    let mut tampered = String::from("11111111111111110600");
    tampered.push_str(&token[20..]);
    assert_eq!(ts.validate(&tampered, 1_000), Err(TokenError::BadSignature));
}

#[test]
fn token_of_other_secret_rejected() {
    let ts = service();
    let other = TokenService::new("another-secret".to_string());
    let token = other.mint(&subject(), 1_000);
    assert_eq!(ts.validate(&token, 1_000), Err(TokenError::BadSignature));
}

#[test]
fn revocation_lasts_until_ttl_elapses() {
    let mut store = RevocationStore::new();
    let t0: u64 = 5_000;
    store.revoke("some-token", t0);
    assert!(store.is_revoked("some-token", t0));
    assert!(store.is_revoked("some-token", t0 + TOKEN_TTL_SECONDS - 1));
    assert!(!store.is_revoked("some-token", t0 + TOKEN_TTL_SECONDS));
    assert!(!store.is_revoked("other-token", t0));
}

#[test]
fn revoking_twice_equals_revoking_once() {
    let mut once = RevocationStore::new();
    once.revoke("some-token", 5_000);
    let mut twice = RevocationStore::new();
    twice.revoke("some-token", 5_000);
    twice.revoke("some-token", 5_000);
    for now in [4_999u64, 5_000, 5_599, 5_600, 6_000] {
        assert_eq!(once.is_revoked("some-token", now), twice.is_revoked("some-token", now));
    }
}
