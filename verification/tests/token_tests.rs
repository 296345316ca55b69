use gateway_core::auth::{AuthError, AuthUser};
use gateway_core::http::HeaderEntry;
use gateway_core::token::{create_token, decode_token, issue_token};

const SECRET: &[u8] = b"test-signing-secret";
const DAY: u64 = 86400;

fn bearer_headers(token: &[u8]) -> Vec<HeaderEntry> {
    let mut value = b"Bearer ".to_vec();
    value.extend_from_slice(token);
    vec![HeaderEntry { name: b"authorization".to_vec(), value }]
}

#[test]
fn issued_token_decodes_to_same_identity() {
    let user_id: u128 = 0x0123_4567_89ab_cdef_0123_4567_89ab_cdef;
    let now: u64 = 1_700_000_000;
    let token = create_token(user_id, "alice", "alice@example.com", SECRET, now);
    let claims = decode_token(&token, SECRET, now + 60).unwrap();
    assert_eq!(claims.username, "alice");
    assert_eq!(claims.email, "alice@example.com");
    assert_eq!(claims.exp, now + 7 * DAY);
    // The subject round-trips to the same 128-bit identifier.
    let headers = bearer_headers(&token);
    let user = AuthUser::from_headers(&headers, SECRET, now + 60).unwrap();
    assert_eq!(user.user_id, user_id);
    assert_eq!(user.username, "alice");
}

#[test]
fn token_is_valid_six_days_and_expired_eight_days_after_issue() {
    let now: u64 = 1_700_000_000;
    let token = create_token(7, "bob", "", SECRET, now);
    assert!(decode_token(&token, SECRET, now + 6 * DAY).is_ok());
    assert!(decode_token(&token, SECRET, now + 8 * DAY).is_err());
}

#[test]
fn flipping_any_single_byte_invalidates_the_token() {
    let now: u64 = 1_700_000_000;
    let token = create_token(42, "carol", "c@example.com", SECRET, now);
    assert!(decode_token(&token, SECRET, now).is_ok());
    for i in 0..token.len() {
        let mut tampered = token.clone();
        tampered[i] ^= 0x01;
        assert!(
            decode_token(&tampered, SECRET, now).is_err(),
            "byte {} flipped and the token still decoded",
            i
        );
    }
}

#[test]
fn wrong_secret_is_rejected() {
    let now: u64 = 1_700_000_000;
    let token = create_token(42, "carol", "", SECRET, now);
    assert!(decode_token(&token, b"another secret", now).is_err());
}

#[test]
fn malformed_bearer_token_is_unauthorized() {
    let headers = bearer_headers(b"malformed.token");
    let err = AuthUser::from_headers(&headers, SECRET, 1_700_000_000).unwrap_err();
    assert_eq!(err, AuthError::InvalidToken);
    assert_eq!(err.status_code(), 401);
}

#[test]
fn missing_authorization_header_is_unauthorized() {
    let headers: Vec<HeaderEntry> = vec![];
    let err = AuthUser::from_headers(&headers, SECRET, 0).unwrap_err();
    assert_eq!(err, AuthError::MissingHeader);
    assert_eq!(err.status_code(), 401);
    assert_eq!(err.message(), "Missing authorization header");
}

#[test]
fn authorization_without_bearer_prefix_is_unauthorized() {
    let headers = vec![HeaderEntry {
        name: b"authorization".to_vec(),
        value: b"Basic dXNlcjpwdw==".to_vec(),
    }];
    let err = AuthUser::from_headers(&headers, SECRET, 0).unwrap_err();
    assert_eq!(err, AuthError::InvalidFormat);
}

#[test]
fn empty_bearer_token_is_unauthorized() {
    let headers = bearer_headers(b"");
    let err = AuthUser::from_headers(&headers, SECRET, 0).unwrap_err();
    assert_eq!(err, AuthError::InvalidToken);
}

#[test]
fn header_name_lookup_ignores_ascii_case() {
    let now: u64 = 1_700_000_000;
    let token = create_token(42, "carol", "", SECRET, now);
    let mut value = b"Bearer ".to_vec();
    value.extend_from_slice(&token);
    let headers = vec![HeaderEntry { name: b"Authorization".to_vec(), value }];
    assert!(AuthUser::from_headers(&headers, SECRET, now).is_ok());
}

#[test]
fn valid_token_with_ill_formed_subject_is_unauthorized() {
    // A token signed with the right secret but whose subject is no user
    // identifier: built directly with the signing library.
    let mut m = serde_json::Map::new();
    m.insert("sub".to_string(), serde_json::Value::String("not-an-identifier".to_string()));
    m.insert("username".to_string(), serde_json::Value::String("mallory".to_string()));
    m.insert("email".to_string(), serde_json::Value::String(String::new()));
    m.insert("exp".to_string(), serde_json::Value::from(2_000_000_000u64));
    let token = jsonwebtoken::encode(
        &jsonwebtoken::Header::default(),
        &serde_json::Value::Object(m),
        &jsonwebtoken::EncodingKey::from_secret(SECRET),
    )
    .unwrap();
    let headers = bearer_headers(token.as_bytes());
    let err = AuthUser::from_headers(&headers, SECRET, 1_700_000_000).unwrap_err();
    assert_eq!(err, AuthError::InvalidUserId);
    assert_eq!(err.message(), "Invalid user id in token");
}

#[test]
fn issue_token_uses_the_current_clock() {
    let token = issue_token(9, "dave", "d@example.com", SECRET).unwrap();
    let now = chrono::Utc::now().timestamp() as u64;
    let claims = decode_token(&token, SECRET, now).unwrap();
    assert_eq!(claims.username, "dave");
    // Expiration sits seven days out, give or take the moment between the
    // two clock reads.
    assert!(claims.exp >= now + 7 * DAY - 5);
    assert!(claims.exp <= now + 7 * DAY + 5);
}

#[test]
fn interoperates_with_a_serde_decoding_of_the_same_token() {
    // Another service decoding with the same library and secret sees the
    // same claims.
    let now: u64 = 1_700_000_000;
    let token = create_token(11, "erin", "e@example.com", SECRET, now);
    let mut validation = jsonwebtoken::Validation::default();
    validation.validate_exp = false;
    validation.required_spec_claims = std::collections::HashSet::new();
    let data = jsonwebtoken::decode::<serde_json::Value>(
        std::str::from_utf8(&token).unwrap(),
        &jsonwebtoken::DecodingKey::from_secret(SECRET),
        &validation,
    )
    .unwrap();
    assert_eq!(data.claims.get("username").and_then(|v| v.as_str()), Some("erin"));
    assert_eq!(data.claims.get("exp").and_then(|v| v.as_u64()), Some(now + 7 * DAY));
}
