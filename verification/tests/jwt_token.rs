use printerlynx::common::app_error::AuthError;
use printerlynx::common::clock;
use printerlynx::common::jwt_token::{
    claims_from_payload, decode_token, decode_token_at, generate_token, ClaimCodec, Claims,
    TokenPayload, EXPIRY_CLAIM, ISSUER, ISSUER_CLAIM, SUBJECT_CLAIM,
};

const SECRET: &str = "4L9wP7nRyQs2F6vZ8KcGtA1DxH5eE3jY";

fn claims(sub: &str, exp: u64) -> Claims {
    Claims { exp, iss: "Printerlynx".to_string(), sub: sub.to_string() }
}

fn signed_with(members: Vec<(&str, serde_json::Value)>, secret: &str) -> String {
    let mut payload = serde_json::Map::new();
    for (name, value) in members {
        payload.insert(name.to_string(), value);
    }
    jsonwebtoken::encode(
        &jsonwebtoken::Header::default(),
        &payload,
        &jsonwebtoken::EncodingKey::from_secret(secret.as_bytes()),
    )
    .unwrap()
}

#[test]
fn test_generate_token() {
    let claims = Claims { exp: 0, iss: "Printerlynx".to_string(), sub: "test".to_string() };

    let token = generate_token(claims, SECRET);
    assert!(!token.is_empty());
}

#[test]
fn test_decode_token() {
    let claims = Claims {
        exp: clock::now() + 31536000,
        iss: "Printerlynx".to_string(),
        sub: "test".to_string(),
    };

    let token = generate_token(claims, SECRET);
    let decoded_token = decode_token(&token, SECRET);
    assert!(decoded_token.is_ok());
}

#[test]
fn token_has_three_parts_and_is_not_the_subject() {
    let token = generate_token(claims("u1", 2000), SECRET);
    assert_eq!(token.split('.').count(), 3);
    assert_ne!(token, "u1");
    assert_ne!(token, SECRET);
}

#[test]
fn decode_reads_back_what_was_signed() {
    let token = generate_token(claims("u1", 2000), SECRET);
    assert_eq!(decode_token_at(&token, SECRET, 0), Ok(claims("u1", 2000)));
    assert_eq!(decode_token_at(&token, SECRET, 1999), Ok(claims("u1", 2000)));
}

#[test]
fn decode_reads_back_any_text() {
    let odd = Claims {
        exp: u64::MAX,
        iss: "\"quoted\" \\ and \n newline".to_string(),
        sub: "Grüße, 世界 🦀\u{0}".to_string(),
    };
    let token = generate_token(odd.clone(), "");
    assert_eq!(decode_token_at(&token, "", u64::MAX - 1), Ok(odd));
}

#[test]
fn expiry_must_lie_in_the_future() {
    let token = generate_token(claims("u1", 2000), SECRET);
    assert_eq!(decode_token_at(&token, SECRET, 2000), Err(AuthError::InvalidToken));
    assert_eq!(decode_token_at(&token, SECRET, 2001), Err(AuthError::InvalidToken));
    assert_eq!(decode_token_at(&token, SECRET, u64::MAX), Err(AuthError::InvalidToken));
    let never_valid = generate_token(claims("u1", 0), SECRET);
    assert_eq!(decode_token_at(&never_valid, SECRET, 0), Err(AuthError::InvalidToken));
}

#[test]
fn there_is_no_leeway_after_expiry() {
    let now = clock::now();
    let token = generate_token(claims("u1", now - 30), SECRET);
    assert_eq!(decode_token(&token, SECRET), Err(AuthError::InvalidToken));
}

#[test]
fn another_secret_does_not_verify() {
    let token = generate_token(claims("u1", 2000), SECRET);
    assert_eq!(decode_token_at(&token, "another secret", 0), Err(AuthError::InvalidToken));
    assert_eq!(decode_token_at(&token, "", 0), Err(AuthError::InvalidToken));
}

#[test]
fn tampering_with_any_byte_is_refused() {
    let token = generate_token(claims("u1", 2000), SECRET);
    assert!(token.is_ascii());
    for at in 0..token.len() {
        let mut bytes = token.clone().into_bytes();
        bytes[at] = if bytes[at] == b'A' { b'B' } else { b'A' };
        let tampered = String::from_utf8(bytes).unwrap();
        assert_ne!(tampered, token);
        assert_eq!(decode_token_at(&tampered, SECRET, 0), Err(AuthError::InvalidToken));
    }
}

#[test]
fn malformed_tokens_are_refused() {
    for token in ["", ".", "..", "a.b.c", "not a token", "a.b", "a.b.c.d", "🦀"] {
        assert_eq!(decode_token_at(token, SECRET, 0), Err(AuthError::InvalidToken));
    }
}

#[test]
fn a_token_that_lacks_a_claim_is_refused() {
    let exp = serde_json::Value::from(2000u64);
    let text = |s: &str| serde_json::Value::from(s);
    let whole = signed_with(vec![("exp", exp.clone()), ("iss", text("x")), ("sub", text("u1"))], SECRET);
    assert_eq!(
        decode_token_at(&whole, SECRET, 0),
        Ok(Claims { exp: 2000, iss: "x".to_string(), sub: "u1".to_string() })
    );
    let no_sub = signed_with(vec![("exp", exp.clone()), ("iss", text("x"))], SECRET);
    assert_eq!(decode_token_at(&no_sub, SECRET, 0), Err(AuthError::InvalidToken));
    let no_iss = signed_with(vec![("exp", exp.clone()), ("sub", text("u1"))], SECRET);
    assert_eq!(decode_token_at(&no_iss, SECRET, 0), Err(AuthError::InvalidToken));
    let no_exp = signed_with(vec![("iss", text("x")), ("sub", text("u1"))], SECRET);
    assert_eq!(decode_token_at(&no_exp, SECRET, 0), Err(AuthError::InvalidToken));
    let sub_is_number =
        signed_with(vec![("exp", exp), ("iss", text("x")), ("sub", serde_json::Value::from(1))], SECRET);
    assert_eq!(decode_token_at(&sub_is_number, SECRET, 0), Err(AuthError::InvalidToken));
}

#[test]
fn payload_becomes_claims_only_when_whole_and_unexpired() {
    let whole = TokenPayload {
        exp: Some(10),
        iss: Some("i".to_string()),
        sub: Some("s".to_string()),
    };
    assert_eq!(
        claims_from_payload(whole.clone(), 9),
        Ok(Claims { exp: 10, iss: "i".to_string(), sub: "s".to_string() })
    );
    assert_eq!(claims_from_payload(whole.clone(), 10), Err(AuthError::InvalidToken));
    assert_eq!(claims_from_payload(whole.clone(), 11), Err(AuthError::InvalidToken));
    let mut part = whole.clone();
    part.exp = None;
    assert_eq!(claims_from_payload(part, 0), Err(AuthError::InvalidToken));
    let mut part = whole.clone();
    part.iss = None;
    assert_eq!(claims_from_payload(part, 0), Err(AuthError::InvalidToken));
    let mut part = whole;
    part.sub = None;
    assert_eq!(claims_from_payload(part, 0), Err(AuthError::InvalidToken));
}

#[test]
fn issued_credential_verifies_until_it_expires() {
    let codec = ClaimCodec::new(SECRET.to_string());
    let credential = codec.issue_at("u1", 3600, 1_000);
    let expected = Claims { exp: 4_600, iss: ISSUER.to_string(), sub: "u1".to_string() };
    assert_eq!(codec.verify_at(&credential, 1_000), Ok(expected.clone()));
    assert_eq!(codec.verify_at(&credential, 4_599), Ok(expected));
    assert_eq!(codec.verify_at(&credential, 4_600), Err(AuthError::InvalidToken));
    assert_eq!(codec.verify_at(&credential, 4_601), Err(AuthError::InvalidToken));
}

#[test]
fn credential_with_no_time_to_live_never_verifies() {
    let codec = ClaimCodec::new(SECRET.to_string());
    let credential = codec.issue_at("u1", 0, 1_000);
    assert_eq!(codec.verify_at(&credential, 1_000), Err(AuthError::InvalidToken));
}

#[test]
fn expiry_may_reach_the_end_of_time() {
    let codec = ClaimCodec::new(SECRET.to_string());
    let credential = codec.issue_at("u1", u64::MAX - 5, 5);
    assert_eq!(codec.verify_at(&credential, u64::MAX - 1).map(|c| c.exp), Ok(u64::MAX));
    assert_eq!(codec.verify_at(&credential, u64::MAX), Err(AuthError::InvalidToken));
}

#[test]
fn codecs_with_different_secrets_do_not_accept_each_other() {
    let one = ClaimCodec::new("one".to_string());
    let other = ClaimCodec::new("other".to_string());
    let credential = one.issue_at("u1", 10, 0);
    assert!(one.verify_at(&credential, 0).is_ok());
    assert_eq!(other.verify_at(&credential, 0), Err(AuthError::InvalidToken));
}

#[test]
fn issue_and_verify_by_the_clock() {
    let codec = ClaimCodec::new(SECRET.to_string());
    let before = clock::now();
    let credential = codec.issue("u1", 3600).unwrap();
    let claims = codec.verify(&credential).unwrap();
    let after = clock::now();
    assert_eq!(claims.sub, "u1");
    assert_eq!(claims.iss, "Printerlynx");
    assert!(before + 3600 <= claims.exp && claims.exp <= after + 3600);
    assert_eq!(codec.issue("u1", u64::MAX), None);
    let expired = codec.issue("u1", 0).unwrap();
    assert_eq!(codec.verify(&expired), Err(AuthError::InvalidToken));
}

#[test]
fn credential_that_outlives_the_clock_verifies_by_the_clock() {
    let codec = ClaimCodec::new(SECRET.to_string());
    for exp in [i64::MAX as u64 + 1, u64::MAX] {
        let token = generate_token(claims("u1", exp), SECRET);
        assert_eq!(decode_token(&token, SECRET), Ok(claims("u1", exp)));
        assert_eq!(codec.verify(&token), Ok(claims("u1", exp)));
    }
}

#[test]
fn credential_is_never_empty() {
    let codec = ClaimCodec::new("".to_string());
    assert!(!generate_token(claims("", 0), "").is_empty());
    assert!(!codec.issue_at("", 0, 0).is_empty());
    assert!(!codec.issue("", 0).unwrap().is_empty());
}

#[test]
fn claims_are_written_under_their_registered_names() {
    assert_eq!(EXPIRY_CLAIM, "exp");
    assert_eq!(ISSUER_CLAIM, "iss");
    assert_eq!(SUBJECT_CLAIM, "sub");
    let token = generate_token(claims("u1", 2000), SECRET);
    let mut validation = jsonwebtoken::Validation::new(jsonwebtoken::Algorithm::HS256);
    validation.validate_exp = false;
    let read = jsonwebtoken::decode::<serde_json::Value>(
        &token,
        &jsonwebtoken::DecodingKey::from_secret(SECRET.as_bytes()),
        &validation,
    )
    .unwrap();
    let members = read.claims.as_object().unwrap();
    assert_eq!(members.len(), 3);
    assert_eq!(members["exp"], 2000);
    assert_eq!(members["iss"], "Printerlynx");
    assert_eq!(members["sub"], "u1");
}

#[test]
fn readings_before_the_epoch_count_as_the_epoch() {
    assert_eq!(clock::seconds_of_reading(0), 0);
    assert_eq!(clock::seconds_of_reading(1), 1);
    assert_eq!(clock::seconds_of_reading(1_700_000_000), 1_700_000_000);
    assert_eq!(clock::seconds_of_reading(i64::MAX), i64::MAX as u64);
    assert_eq!(clock::seconds_of_reading(-1), 0);
    assert_eq!(clock::seconds_of_reading(i64::MIN), 0);
}

#[test]
fn clock_shows_a_time_after_2020() {
    let now = clock::now();
    assert!(now > 1_577_836_800);
    assert!(now <= i64::MAX as u64);
}
