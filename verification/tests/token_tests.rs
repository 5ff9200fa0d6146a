use auth_core::TokenError;
use auth_core::TOKEN_LIFETIME_SECS;
use auth_core::create_jwt;
use auth_core::validate_jwt;

const SECRET: &str = "test-signing-secret";
const NOW: u64 = 1_700_000_000;

#[test]
fn mint_then_validate_yields_subject() {
    let token = create_jwt(SECRET, "user-123", NOW).unwrap();
    let claims = validate_jwt(SECRET, &token, NOW).unwrap();
    assert_eq!(claims.sub, "user-123");
    assert_eq!(claims.exp, NOW + TOKEN_LIFETIME_SECS);
}

#[test]
fn token_valid_through_whole_lifetime() {
    let token = create_jwt(SECRET, "user-123", NOW).unwrap();
    let claims = validate_jwt(SECRET, &token, NOW + TOKEN_LIFETIME_SECS).unwrap();
    assert_eq!(claims.sub, "user-123");
}

#[test]
fn token_expires_one_second_past_lifetime() {
    let token = create_jwt(SECRET, "user-123", NOW).unwrap();
    let result = validate_jwt(SECRET, &token, NOW + TOKEN_LIFETIME_SECS + 1);
    assert_eq!(result.unwrap_err(), TokenError::Expired);
}

#[test]
fn different_secret_fails_as_invalid() {
    let token = create_jwt("secret-one", "user-123", NOW).unwrap();
    let result = validate_jwt("secret-two", &token, NOW);
    assert_eq!(result.unwrap_err(), TokenError::Invalid);
}

#[test]
fn malformed_tokens_fail_as_invalid() {
    assert_eq!(validate_jwt(SECRET, "", NOW).unwrap_err(), TokenError::Invalid);
    assert_eq!(validate_jwt(SECRET, "abc", NOW).unwrap_err(), TokenError::Invalid);
    assert_eq!(validate_jwt(SECRET, "a.b.c", NOW).unwrap_err(), TokenError::Invalid);
}

#[test]
fn tampered_token_fails_as_invalid() {
    let token = create_jwt(SECRET, "user-123", NOW).unwrap();
    let mut tampered = token.clone();
    tampered.push('x');
    assert_eq!(validate_jwt(SECRET, &tampered, NOW).unwrap_err(), TokenError::Invalid);
    let truncated = &token[..token.len() - 2];
    assert_eq!(validate_jwt(SECRET, truncated, NOW).unwrap_err(), TokenError::Invalid);
}
