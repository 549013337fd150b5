//! The token service at concrete timestamps: issuance, the exact expiry
//! boundary, and the auth gate's header handling.

use authpost::auth_gate::authenticate_at;
use authpost::errors::{AuthError, TokenError};
use authpost::token::{issue, validate_token, UserClaims};

#[test]
fn issued_token_round_trips() {
    let (token, exp) = issue("user-1", 1, "secret", 1000);
    assert_eq!(exp, 1060);

    let claims = validate_token(&token, "secret", 1000).expect("fresh token validates");
    assert_eq!(claims.uuid, "user-1");
    assert_eq!(claims.exp, 1060);
}

#[test]
fn expiry_boundary_is_exact() {
    let (token, exp) = issue("user-1", 1, "secret", 1000);
    assert_eq!(exp, 1060);

    assert!(validate_token(&token, "secret", 1059).is_ok());
    assert_eq!(
        validate_token(&token, "secret", 1060).unwrap_err(),
        TokenError::Expired
    );
    assert_eq!(
        validate_token(&token, "secret", 1061).unwrap_err(),
        TokenError::Expired
    );
}

#[test]
fn wrong_secret_and_garbage_are_invalid() {
    let (token, _) = issue("user-1", 60, "secret", 1000);
    assert_eq!(
        validate_token(&token, "other-secret", 1000).unwrap_err(),
        TokenError::Invalid
    );
    assert_eq!(
        validate_token("not.a.token", "secret", 1000).unwrap_err(),
        TokenError::Invalid
    );
    assert_eq!(
        validate_token("", "secret", 1000).unwrap_err(),
        TokenError::Invalid
    );
}

#[test]
fn tampered_token_is_invalid() {
    let (token, _) = issue("user-1", 60, "secret", 1000);
    let mut tampered = token.clone();
    tampered.pop();
    assert!(validate_token(&tampered, "secret", 1000).is_err());
}

#[test]
fn claims_carry_subject_and_window() {
    let claims = UserClaims::new(60, "user-7".to_string()).expect("clock is past the epoch");
    assert_eq!(claims.uuid, "user-7");
    assert!(claims.exp >= 3600);
}

#[test]
fn gate_accepts_a_valid_bearer_header() {
    let (token, _) = issue("user-1", 1, "secret", 1000);
    let header = format!("Bearer {}", token);
    let identity = authenticate_at(Some(header.as_str()), "secret", 1059).expect("validates");
    assert_eq!(identity.uuid(), "user-1");
    assert_eq!(identity.authentication_token(), &header);
}

#[test]
fn gate_trims_whitespace_around_the_token() {
    let (token, _) = issue("user-1", 1, "secret", 1000);
    let header = format!("Bearer   {}  ", token);
    let identity = authenticate_at(Some(header.as_str()), "secret", 1000).expect("validates");
    assert_eq!(identity.uuid(), "user-1");
}

#[test]
fn gate_rejects_missing_short_expired_and_forged() {
    let (token, exp) = issue("user-1", 1, "secret", 1000);
    let header = format!("Bearer {}", token);

    assert_eq!(
        authenticate_at(None, "secret", 1000).unwrap_err(),
        AuthError::NoAuthenticationToken
    );
    assert_eq!(
        authenticate_at(Some(""), "secret", 1000).unwrap_err(),
        AuthError::InvalidAuthenticationToken
    );
    assert_eq!(
        authenticate_at(Some("Bear"), "secret", 1000).unwrap_err(),
        AuthError::InvalidAuthenticationToken
    );
    assert_eq!(
        authenticate_at(Some("Bearer "), "secret", 1000).unwrap_err(),
        AuthError::InvalidAuthenticationToken
    );
    assert_eq!(
        authenticate_at(Some(header.as_str()), "secret", exp).unwrap_err(),
        AuthError::InvalidAuthenticationToken
    );
    assert_eq!(
        authenticate_at(Some(header.as_str()), "other-secret", 1000).unwrap_err(),
        AuthError::InvalidAuthenticationToken
    );
}
