//! Credential lifecycle: issue, verify, expiry, wrong secret, uniform
//! rejection.

use pbank::auth::{TokenAuthority, EXPIRY_LEEWAY_SECONDS, TOKEN_TTL_SECONDS};

const ALICE_ID: &str = "a1b2c3d4-e5f6-4890-8abc-def012345678";

#[test]
fn issued_token_verifies_to_same_identity() {
    let authority = TokenAuthority::new(String::from("unit-test-secret"));
    let now: u64 = 1_700_000_000;
    let token = authority.create_token(ALICE_ID, now);
    let got = authority.validate_token(&token, now);
    assert_eq!(got, Some(ALICE_ID.to_string()));
}

#[test]
fn token_valid_immediately_and_until_ttl_plus_leeway() {
    let authority = TokenAuthority::new(String::from("unit-test-secret"));
    let now: u64 = 1_700_000_000;
    let token = authority.create_token(ALICE_ID, now);
    assert!(authority.validate_token(&token, now).is_some());
    let last_valid = now + TOKEN_TTL_SECONDS + EXPIRY_LEEWAY_SECONDS;
    assert!(authority.validate_token(&token, last_valid).is_some());
}

#[test]
fn token_rejected_after_expiry() {
    let authority = TokenAuthority::new(String::from("unit-test-secret"));
    let now: u64 = 1_700_000_000;
    let token = authority.create_token(ALICE_ID, now);
    let too_late = now + TOKEN_TTL_SECONDS + EXPIRY_LEEWAY_SECONDS + 1;
    assert_eq!(authority.validate_token(&token, too_late), None);
}

#[test]
fn token_signed_with_other_secret_rejected() {
    let issuer = TokenAuthority::new(String::from("secret-alpha"));
    let verifier = TokenAuthority::new(String::from("secret-beta"));
    let now: u64 = 1_700_000_000;
    let token = issuer.create_token(ALICE_ID, now);
    assert!(issuer.validate_token(&token, now).is_some());
    assert_eq!(verifier.validate_token(&token, now), None);
}

#[test]
fn garbage_token_rejected() {
    let authority = TokenAuthority::new(String::from("unit-test-secret"));
    let now: u64 = 1_700_000_000;
    assert_eq!(authority.validate_token("not-a-token", now), None);
    assert_eq!(authority.validate_token("", now), None);
    assert_eq!(authority.validate_token("aa.bb.cc", now), None);
}

#[test]
fn default_secret_authority_round_trips() {
    let authority = TokenAuthority::with_default_secret();
    let now: u64 = 1_700_000_000;
    let token = authority.create_token(ALICE_ID, now);
    assert_eq!(authority.validate_token(&token, now), Some(ALICE_ID.to_string()));
    // and it is a real fixed secret, not whatever was passed in elsewhere
    let other = TokenAuthority::new(String::from("secretkey"));
    assert_eq!(other.validate_token(&token, now), Some(ALICE_ID.to_string()));
}

#[test]
fn concurrent_issuance_for_other_users_does_not_interfere() {
    let authority = TokenAuthority::new(String::from("unit-test-secret"));
    let now: u64 = 1_700_000_000;
    let bob_id = "b0b0b0b0-1111-4222-8333-444444444444";
    let alice_token = authority.create_token(ALICE_ID, now);
    let bob_token = authority.create_token(bob_id, now);
    assert_eq!(authority.validate_token(&alice_token, now), Some(ALICE_ID.to_string()));
    assert_eq!(authority.validate_token(&bob_token, now), Some(bob_id.to_string()));
}
