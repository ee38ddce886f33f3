use chat_backend::error::ErrorKind;
use chat_backend::object_id::ObjectId;
use chat_backend::token::authenticate_token;
use chat_backend::token::extract_identity;
use chat_backend::token::identify_caller;
use chat_backend::token::issue_token;
use chat_backend::token::verify_token;
use chat_backend::token::Identity;
use chat_backend::token::JWTClaims;
use chat_backend::token::SigningSecret;
use chat_backend::token::TokenError;
use chat_backend::token::TOKEN_LIFETIME;

fn secret() -> SigningSecret {
    SigningSecret::new(b"a process-wide secret".to_vec())
}

fn subject() -> ObjectId {
    ObjectId::parse_str("65f0c0ffee0123456789abcd").unwrap()
}

fn issued_at(now: u64) -> (JWTClaims, String) {
    let claims = JWTClaims::new(subject(), now).unwrap();
    let token = issue_token(&claims, &secret()).unwrap();
    (claims, token)
}

fn bearer(token: &str) -> String {
    format!("Bearer {}", token)
}

#[test]
fn lifetime_is_a_day() {
    assert_eq!(TOKEN_LIFETIME, 86400);
    let claims = JWTClaims::new(subject(), 1_700_000_000).unwrap();
    assert_eq!(claims.iat, 1_700_000_000);
    assert_eq!(claims.exp, 1_700_086_400);
    assert_eq!(claims.user_id, subject());
}

#[test]
fn claims_need_room_for_the_expiry() {
    assert!(JWTClaims::new(subject(), u64::MAX - 86400).is_some());
    assert_eq!(JWTClaims::new(subject(), u64::MAX - 86400).unwrap().exp, u64::MAX);
    assert!(JWTClaims::new(subject(), u64::MAX - 86399).is_none());
    assert!(JWTClaims::new(subject(), u64::MAX).is_none());
}

#[test]
fn issued_token_has_three_segments() {
    let (_, token) = issued_at(1_700_000_000);
    assert_eq!(token.split('.').count(), 3);
    assert!(token.split('.').all(|segment| !segment.is_empty()));
    assert_ne!(token, subject().to_hex());
}

#[test]
fn issued_token_is_the_one_of_the_signing_crate() {
    let (claims, token) = issued_at(1_700_000_000);
    let mut expected = serde_json::Map::new();
    expected.insert("subject_id".to_string(), serde_json::Value::from(subject().to_hex()));
    expected.insert("iat".to_string(), serde_json::Value::from(claims.iat));
    expected.insert("exp".to_string(), serde_json::Value::from(claims.exp));
    let key = jsonwebtoken::EncodingKey::from_secret(b"a process-wide secret");
    let reference = jsonwebtoken::encode(&jsonwebtoken::Header::default(), &expected, &key).unwrap();
    assert_eq!(token, reference);
}

#[test]
fn issued_token_carries_the_three_claims() {
    let (claims, token) = issued_at(1_700_000_000);
    let mut rules = jsonwebtoken::Validation::new(jsonwebtoken::Algorithm::HS256);
    rules.validate_exp = false;
    rules.required_spec_claims.clear();
    let key = jsonwebtoken::DecodingKey::from_secret(b"a process-wide secret");
    let data = jsonwebtoken::decode::<serde_json::Map<String, serde_json::Value>>(&token, &key, &rules)
        .unwrap();
    assert_eq!(data.header.alg, jsonwebtoken::Algorithm::HS256);
    assert_eq!(data.claims.len(), 3);
    assert_eq!(data.claims["subject_id"].as_str(), Some("65f0c0ffee0123456789abcd"));
    assert_eq!(data.claims["iat"].as_u64(), Some(claims.iat));
    assert_eq!(data.claims["exp"].as_u64(), Some(claims.iat + 86400));
}

#[test]
fn round_trip_gives_the_subject_back() {
    let now = 1_700_000_000;
    let (claims, token) = issued_at(now);
    let expected = Identity { subject_id: subject(), issued_at: now, expires_at: now + 86400 };
    let header = bearer(&token);
    for time in [now, now + 1, now + 43_200, now + 86_399] {
        let identity = extract_identity(Some(&header), &secret(), time).unwrap();
        assert_eq!(identity, expected);
        assert_eq!(identity.subject_id, claims.user_id);
        assert!(identity.is_valid_at(time));
    }
}

#[test]
fn round_trip_holds_before_the_issue_too() {
    let (_, token) = issued_at(1_700_000_000);
    let identity = extract_identity(Some(&bearer(&token)), &secret(), 5).unwrap();
    assert_eq!(identity.subject_id, subject());
    assert!(!identity.is_valid_at(5));
}

#[test]
fn token_is_rejected_from_its_expiry_on() {
    let now = 1_700_000_000;
    let (_, token) = issued_at(now);
    let header = bearer(&token);
    assert!(extract_identity(Some(&header), &secret(), now + 86_399).is_ok());
    for time in [now + 86_400, now + 86_401, now + 1_000_000, u64::MAX] {
        let rejected = extract_identity(Some(&header), &secret(), time).unwrap_err();
        assert_eq!(rejected, TokenError::Expired);
        assert_eq!(rejected.kind(), ErrorKind::Authentication);
        assert_eq!(rejected.status(), 401);
    }
}

#[test]
fn expired_token_with_a_bad_signature_is_rejected_as_well() {
    let now = 1_700_000_000;
    let (_, token) = issued_at(now);
    let other = SigningSecret::new(b"another secret".to_vec());
    let rejected = verify_token(&token, &other, now + 90_000).unwrap_err();
    assert_eq!(rejected, TokenError::InvalidSignature);
    assert_eq!(rejected.kind(), ErrorKind::Authentication);
}

#[test]
fn token_with_expiry_in_the_past_is_rejected() {
    let claims = JWTClaims { user_id: subject(), exp: 100, iat: 50 };
    let token = issue_token(&claims, &secret()).unwrap();
    assert_eq!(verify_token(&token, &secret(), 99).unwrap().expires_at, 100);
    assert_eq!(verify_token(&token, &secret(), 100), Err(TokenError::Expired));
    assert_eq!(verify_token(&token, &secret(), 1_700_000_000), Err(TokenError::Expired));
}

#[test]
fn every_flipped_bit_of_the_signature_is_noticed() {
    let now = 1_700_000_000;
    let (_, token) = issued_at(now);
    let dot = token.rfind('.').unwrap();
    let chars: Vec<char> = token.chars().collect();
    assert!(dot + 1 < chars.len());
    let mut tried = 0;
    for position in (dot + 1)..chars.len() {
        for bit in 0..8u32 {
            let mut forged = chars.clone();
            forged[position] = char::from((chars[position] as u8) ^ (1u8 << bit));
            let forged: String = forged.into_iter().collect();
            assert_ne!(forged, token);
            assert!(verify_token(&forged, &secret(), now).is_err());
            assert!(extract_identity(Some(&bearer(&forged)), &secret(), now).is_err());
            tried += 1;
        }
    }
    assert_eq!(tried, 43 * 8);
}

#[test]
fn changed_signature_is_an_invalid_signature() {
    let now = 1_700_000_000;
    let (_, token) = issued_at(now);
    let last = token.chars().last().unwrap();
    let swapped = if last == 'A' { 'E' } else { 'A' };
    let mut forged = token[..token.len() - 1].to_string();
    forged.push(swapped);
    let rejected = verify_token(&forged, &secret(), now).unwrap_err();
    assert!(rejected == TokenError::InvalidSignature || rejected == TokenError::InvalidCredential);
    let mut first_changed: Vec<char> = token.chars().collect();
    let dot = token.rfind('.').unwrap();
    first_changed[dot + 1] = if first_changed[dot + 1] == 'B' { 'C' } else { 'B' };
    let forged: String = first_changed.into_iter().collect();
    assert_eq!(verify_token(&forged, &secret(), now), Err(TokenError::InvalidSignature));
}

#[test]
fn changed_claims_are_an_invalid_signature() {
    let now = 1_700_000_000;
    let (_, token) = issued_at(now);
    let (_, other) = issued_at(now + 1);
    let parts: Vec<&str> = token.split('.').collect();
    let other_parts: Vec<&str> = other.split('.').collect();
    assert_ne!(parts[1], other_parts[1]);
    let forged = format!("{}.{}.{}", parts[0], other_parts[1], parts[2]);
    assert_eq!(verify_token(&forged, &secret(), now), Err(TokenError::InvalidSignature));
}

#[test]
fn token_of_another_secret_is_rejected() {
    let now = 1_700_000_000;
    let (_, token) = issued_at(now);
    let other = SigningSecret::new(b"a process-wide secreT".to_vec());
    assert_eq!(verify_token(&token, &other, now), Err(TokenError::InvalidSignature));
    assert_eq!(authenticate_token(&token, &other), Err(TokenError::InvalidSignature));
}

#[test]
fn malformed_segments_are_rejected_without_a_panic() {
    let now = 1_700_000_000;
    let (_, token) = issued_at(now);
    let parts: Vec<&str> = token.split('.').collect();
    let cases = vec![
        String::new(),
        ".".to_string(),
        "..".to_string(),
        "...".to_string(),
        "a.b.c".to_string(),
        "a.b".to_string(),
        "abc".to_string(),
        format!("{}.{}", parts[0], parts[1]),
        format!("{}.{}.{}.{}", parts[0], parts[1], parts[2], parts[2]),
        format!("{}.{}.", parts[0], parts[1]),
        format!(".{}.{}", parts[1], parts[2]),
        format!("{}..{}", parts[0], parts[2]),
        format!("{}=.{}.{}", parts[0], parts[1], parts[2]),
        format!("{}.{}=.{}", parts[0], parts[1], parts[2]),
        format!("{}.{}.{}=", parts[0], parts[1], parts[2]),
        format!("{}!.{}.{}", parts[0], parts[1], parts[2]),
        format!("{}.{}*.{}", parts[0], parts[1], parts[2]),
        format!("{}.{}.{}+", parts[0], parts[1], parts[2]),
        format!("{}.{}.{}/", parts[0], parts[1], parts[2]),
        format!("{}.{} .{}", parts[0], parts[1], parts[2]),
        format!("{}.{}.{}\u{e9}", parts[0], parts[1], parts[2]),
        format!("{}a.{}.{}", parts[0], parts[1], parts[2]),
        format!(" {}", token),
        format!("{} ", token),
        format!("{}\n", token),
    ];
    for case in cases {
        let rejected = verify_token(&case, &secret(), now);
        assert!(rejected.is_err(), "accepted {:?}", case);
        assert!(extract_identity(Some(&bearer(&case)), &secret(), now).is_err());
    }
}

#[test]
fn segment_outside_the_alphabet_is_an_invalid_credential() {
    let now = 1_700_000_000;
    let (_, token) = issued_at(now);
    let parts: Vec<&str> = token.split('.').collect();
    for forged in [
        format!("{}$.{}.{}", parts[0], parts[1], parts[2]),
        format!("{}.{}$.{}", parts[0], parts[1], parts[2]),
        format!("{}.{}.{}$", parts[0], parts[1], parts[2]),
        format!("{}.{}.{}AA", parts[0], parts[1], parts[2]),
        "A.AA.AA".to_string(),
        "AA.AB.AA".to_string(),
        "AA.AA.AAB".to_string(),
    ] {
        assert_eq!(verify_token(&forged, &secret(), now), Err(TokenError::InvalidCredential));
    }
}

#[test]
fn well_framed_nonsense_has_an_invalid_signature() {
    assert_eq!(verify_token("AA.AA.AA", &secret(), 0), Err(TokenError::InvalidSignature));
    assert_eq!(verify_token("..", &secret(), 0), Err(TokenError::InvalidSignature));
}

#[test]
fn signed_token_without_the_claims_is_an_invalid_credential() {
    let mut claims = serde_json::Map::new();
    claims.insert("sub".to_string(), serde_json::Value::from("65f0c0ffee0123456789abcd"));
    claims.insert("exp".to_string(), serde_json::Value::from(2_000_000_000u64));
    let key = jsonwebtoken::EncodingKey::from_secret(b"a process-wide secret");
    let token = jsonwebtoken::encode(&jsonwebtoken::Header::default(), &claims, &key).unwrap();
    assert_eq!(verify_token(&token, &secret(), 0), Err(TokenError::InvalidCredential));
}

#[test]
fn signed_token_with_a_subject_that_is_no_identifier_is_an_invalid_credential() {
    let mut claims = serde_json::Map::new();
    claims.insert("subject_id".to_string(), serde_json::Value::from("ann"));
    claims.insert("iat".to_string(), serde_json::Value::from(10u64));
    claims.insert("exp".to_string(), serde_json::Value::from(2_000_000_000u64));
    let key = jsonwebtoken::EncodingKey::from_secret(b"a process-wide secret");
    let token = jsonwebtoken::encode(&jsonwebtoken::Header::default(), &claims, &key).unwrap();
    assert_eq!(verify_token(&token, &secret(), 0), Err(TokenError::InvalidCredential));
}

#[test]
fn signed_token_of_another_algorithm_is_rejected() {
    let mut claims = serde_json::Map::new();
    claims.insert("subject_id".to_string(), serde_json::Value::from("65f0c0ffee0123456789abcd"));
    claims.insert("iat".to_string(), serde_json::Value::from(10u64));
    claims.insert("exp".to_string(), serde_json::Value::from(2_000_000_000u64));
    let key = jsonwebtoken::EncodingKey::from_secret(b"a process-wide secret");
    let header = jsonwebtoken::Header::new(jsonwebtoken::Algorithm::HS512);
    let token = jsonwebtoken::encode(&header, &claims, &key).unwrap();
    assert!(verify_token(&token, &secret(), 0).is_err());
}

#[test]
fn signed_token_with_an_upper_case_subject_names_the_same_identity() {
    let mut claims = serde_json::Map::new();
    claims.insert("subject_id".to_string(), serde_json::Value::from("65F0C0FFEE0123456789ABCD"));
    claims.insert("iat".to_string(), serde_json::Value::from(10u64));
    claims.insert("exp".to_string(), serde_json::Value::from(20u64));
    let key = jsonwebtoken::EncodingKey::from_secret(b"a process-wide secret");
    let token = jsonwebtoken::encode(&jsonwebtoken::Header::default(), &claims, &key).unwrap();
    let identity = verify_token(&token, &secret(), 19).unwrap();
    assert_eq!(identity, Identity { subject_id: subject(), issued_at: 10, expires_at: 20 });
}

#[test]
fn missing_header_is_an_invalid_credential() {
    let rejected = extract_identity(None, &secret(), 0).unwrap_err();
    assert_eq!(rejected, TokenError::InvalidCredential);
    assert_eq!(rejected.status(), 401);
    assert_eq!(rejected.kind(), ErrorKind::Authentication);
}

#[test]
fn header_without_the_bearer_word_is_an_invalid_credential() {
    let now = 1_700_000_000;
    let (_, token) = issued_at(now);
    for header in [
        token.clone(),
        format!("bearer {}", token),
        format!("BEARER {}", token),
        format!("Bearer{}", token),
        format!("Basic {}", token),
        format!(" Bearer {}", token),
        format!("Bearer  {}", token),
        "Bearer".to_string(),
        "Bearer ".to_string(),
        "Bear".to_string(),
        String::new(),
        format!("B\u{e9}arer {}", token),
    ] {
        assert_eq!(
            extract_identity(Some(&header), &secret(), now),
            Err(TokenError::InvalidCredential),
            "accepted {:?}",
            header
        );
    }
}

#[test]
fn same_token_fails_the_same_way_each_time() {
    let now = 1_700_000_000;
    let (_, token) = issued_at(now);
    let header = bearer(&token);
    let first = extract_identity(Some(&header), &secret(), now + 86_400);
    let second = extract_identity(Some(&header), &secret(), now + 86_400);
    assert_eq!(first, second);
    let first = extract_identity(Some("Bearer x.y"), &secret(), now);
    let second = extract_identity(Some("Bearer x.y"), &secret(), now);
    assert_eq!(first, second);
}

#[test]
fn authentication_does_not_look_at_the_clock() {
    let claims = JWTClaims { user_id: subject(), exp: 100, iat: 50 };
    let token = issue_token(&claims, &secret()).unwrap();
    let identity = authenticate_token(&token, &secret()).unwrap();
    assert_eq!(identity, Identity { subject_id: subject(), issued_at: 50, expires_at: 100 });
}

#[test]
fn token_with_an_empty_secret_reads_back() {
    let empty = SigningSecret::new(Vec::new());
    let claims = JWTClaims::new(subject(), 7).unwrap();
    let token = issue_token(&claims, &empty).unwrap();
    assert_eq!(verify_token(&token, &empty, 8).unwrap().subject_id, subject());
    assert_eq!(verify_token(&token, &secret(), 8), Err(TokenError::InvalidSignature));
}

#[test]
fn identity_is_valid_from_issue_until_expiry() {
    let identity = Identity { subject_id: subject(), issued_at: 10, expires_at: 20 };
    assert!(!identity.is_valid_at(9));
    assert!(identity.is_valid_at(10));
    assert!(identity.is_valid_at(19));
    assert!(!identity.is_valid_at(20));
}

#[test]
fn token_errors_say_what_went_wrong() {
    assert_eq!(TokenError::InvalidCredential.message(), "Missing or invalid credential");
    assert_eq!(TokenError::InvalidSignature.message(), "Invalid signature");
    assert_eq!(TokenError::Expired.message(), "Expired credential");
    for error in [TokenError::InvalidCredential, TokenError::InvalidSignature, TokenError::Expired] {
        assert_eq!(error.status(), 401);
        assert_eq!(error.kind(), ErrorKind::Authentication);
        assert_eq!(error.kind().status(), 401);
    }
}

#[test]
fn caller_is_identified_by_the_clock() {
    let now = chrono::Utc::now().timestamp() as u64;
    let (_, fresh) = issued_at(now);
    let identity = identify_caller(Some(&bearer(&fresh)), &secret()).unwrap();
    assert_eq!(identity.subject_id, subject());
    assert_eq!(identity.issued_at, now);
    let (_, stale) = issued_at(now - 86_400);
    assert_eq!(identify_caller(Some(&bearer(&stale)), &secret()), Err(TokenError::Expired));
    let (_, nearly) = issued_at(now - 86_000);
    assert!(identify_caller(Some(&bearer(&nearly)), &secret()).is_ok());
    assert_eq!(identify_caller(None, &secret()), Err(TokenError::InvalidCredential));
    assert_eq!(identify_caller(Some(&fresh), &secret()), Err(TokenError::InvalidCredential));
}
