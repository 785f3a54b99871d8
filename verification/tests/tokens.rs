use auth_core::auth::{AuthResponse, AuthService, Claims, Decoded, TOKEN_TTL_SECS};
use auth_core::clock::{current_time, time_from_reading};
use auth_core::errors::{AuthError, Field, TokenError};
use auth_core::storage::LookupReply;
use auth_core::user::{LoginUser, User};

const NOW: usize = 1_700_000_000;

fn user(id: u128) -> User {
    User {
        id,
        email: "a@example.com".to_string(),
        password_hash: bcrypt::hash("longenough1", 4).unwrap(),
        created_at: 1_700_000_000_000_000,
        updated_at: 1_700_000_000_000_000,
    }
}

fn plain_user(id: u128) -> User {
    User {
        id,
        email: "a@example.com".to_string(),
        password_hash: String::new(),
        created_at: 0,
        updated_at: 0,
    }
}

/// A token with an arbitrary payload, signed as the service signs.
fn token_with(secret: &str, payload: serde_json::Value) -> String {
    jsonwebtoken::encode(
        &jsonwebtoken::Header::default(),
        &payload,
        &jsonwebtoken::EncodingKey::from_secret(secret.as_bytes()),
    )
    .unwrap()
}

fn object(entries: Vec<(&str, serde_json::Value)>) -> serde_json::Value {
    let mut map = serde_json::Map::new();
    for (key, value) in entries {
        map.insert(key.to_string(), value);
    }
    serde_json::Value::Object(map)
}

#[test]
fn ttl_is_twenty_four_hours() {
    assert_eq!(TOKEN_TTL_SECS, 86_400);
}

#[test]
fn claims_carry_the_id_and_expire_a_day_after_issue() {
    let claims = AuthService::claims_for(&plain_user(0x0123_4567_89ab_cdef_0123_4567_89ab_cdef), NOW);
    assert_eq!(
        claims,
        Some(Claims {
            sub: "01234567-89ab-cdef-0123-456789abcdef".to_string(),
            exp: 1_700_086_400,
            iat: 1_700_000_000,
        })
    );
}

#[test]
fn claims_cannot_be_made_where_the_expiry_overflows() {
    assert_eq!(AuthService::claims_for(&plain_user(1), usize::MAX), None);
    assert_eq!(AuthService::claims_for(&plain_user(1), usize::MAX - TOKEN_TTL_SECS + 1), None);
    let last = AuthService::claims_for(&plain_user(1), usize::MAX - TOKEN_TTL_SECS).unwrap();
    assert_eq!(last.exp, usize::MAX);
}

#[test]
fn issue_fails_as_signing_where_the_expiry_overflows() {
    let service = AuthService::new("secret");
    assert_eq!(service.generate_token_at(&plain_user(1), usize::MAX), Err(AuthError::Signing));
}

#[test]
fn issued_token_has_three_parts_and_the_standard_header() {
    let service = AuthService::new("secret");
    let token = service.generate_token_at(&plain_user(1), NOW).unwrap();
    let parts: Vec<&str> = token.split('.').collect();
    assert_eq!(parts.len(), 3);
    assert_eq!(parts[0], "eyJ0eXAiOiJKV1QiLCJhbGciOiJIUzI1NiJ9");
    let header = jsonwebtoken::decode_header(&token).unwrap();
    assert_eq!(header.alg, jsonwebtoken::Algorithm::HS256);
}

#[test]
fn signing_is_a_function_of_secret_and_claims() {
    let service = AuthService::new("secret");
    let claims = Claims { sub: "someone".to_string(), exp: 20, iat: 10 };
    let first = service.sign(&claims).unwrap();
    let second = service.sign(&claims).unwrap();
    assert_eq!(first, second);
    let other = AuthService::new("secret").sign(&Claims { sub: "someone".to_string(), exp: 21, iat: 10 });
    assert_ne!(first, other.unwrap());
    assert_ne!(first, AuthService::new("other").sign(&claims).unwrap());
}

#[test]
fn issue_then_validate_returns_the_users_id_as_subject() {
    let service = AuthService::new("secret");
    let owner = plain_user(0x0123_4567_89ab_cdef_0123_4567_89ab_cdef);
    let token = service.generate_token_at(&owner, NOW).unwrap();
    let claims = service.validate_token_at(&token, NOW).unwrap();
    assert_eq!(claims.sub, owner.id_text());
    assert_eq!(claims.sub, "01234567-89ab-cdef-0123-456789abcdef");
    assert_eq!(claims.iat, NOW);
    assert_eq!(claims.exp, NOW + 86_400);
}

#[test]
fn issue_then_validate_with_the_real_clock() {
    let service = AuthService::new("secret");
    let owner = plain_user(42);
    let before = current_time();
    let token = service.generate_token(&owner).unwrap();
    let claims = service.validate_token(&token).unwrap();
    let after = current_time();
    assert_eq!(claims.sub, "00000000-0000-0000-0000-00000000002a");
    assert!(before <= claims.iat && claims.iat <= after);
    assert_eq!(claims.exp, claims.iat + TOKEN_TTL_SECS);
}

#[test]
fn token_is_good_up_to_its_expiry_and_expired_after() {
    let service = AuthService::new("secret");
    let token = service.generate_token_at(&plain_user(1), NOW).unwrap();
    assert!(service.validate_token_at(&token, NOW + TOKEN_TTL_SECS - 1).is_ok());
    assert!(service.validate_token_at(&token, NOW + TOKEN_TTL_SECS).is_ok());
    assert_eq!(
        service.validate_token_at(&token, NOW + TOKEN_TTL_SECS + 1),
        Err(TokenError::Expired)
    );
    assert_eq!(service.validate_token_at(&token, usize::MAX), Err(TokenError::Expired));
}

#[test]
fn token_issued_a_day_ago_is_expired_by_the_real_clock() {
    let service = AuthService::new("secret");
    let long_ago = current_time() - TOKEN_TTL_SECS - 1;
    let token = service.generate_token_at(&plain_user(1), long_ago).unwrap();
    assert_eq!(service.validate_token(&token), Err(TokenError::Expired));
    assert_eq!(service.verify(&token), Err(AuthError::Unauthorized));
}

#[test]
fn token_validated_with_a_different_secret_fails_on_the_signature() {
    let token = AuthService::new("secret").generate_token_at(&plain_user(1), NOW).unwrap();
    let other = AuthService::new("another secret");
    assert_eq!(other.validate_token_at(&token, NOW), Err(TokenError::InvalidSignature));
    // The signature is judged before the expiry.
    assert_eq!(
        other.validate_token_at(&token, NOW + TOKEN_TTL_SECS + 1),
        Err(TokenError::InvalidSignature)
    );
}

#[test]
fn tampered_token_fails_on_the_signature() {
    let service = AuthService::new("secret");
    let token = service.generate_token_at(&plain_user(1), NOW).unwrap();
    let forged = service.generate_token_at(&plain_user(2), NOW).unwrap();
    let parts: Vec<&str> = token.split('.').collect();
    let forged_parts: Vec<&str> = forged.split('.').collect();
    let mixed = format!("{}.{}.{}", parts[0], forged_parts[1], parts[2]);
    assert_eq!(service.validate_token_at(&mixed, NOW), Err(TokenError::InvalidSignature));
}

#[test]
fn text_that_is_no_token_is_malformed() {
    let service = AuthService::new("secret");
    assert_eq!(service.validate_token_at("", NOW), Err(TokenError::Malformed));
    assert_eq!(service.validate_token_at("not a token", NOW), Err(TokenError::Malformed));
    assert_eq!(service.validate_token_at("a.b", NOW), Err(TokenError::Malformed));
    assert_eq!(service.validate_token_at("a.b.c", NOW), Err(TokenError::Malformed));
    assert_eq!(service.validate_token_at("a.b.c.d", NOW), Err(TokenError::Malformed));
}

#[test]
fn token_without_its_claims_is_malformed() {
    let service = AuthService::new("secret");
    let exp = serde_json::Value::from(NOW as u64 + 10);
    let iat = serde_json::Value::from(NOW as u64);
    let sub = serde_json::Value::from("someone");

    let no_sub = token_with("secret", object(vec![("exp", exp.clone()), ("iat", iat.clone())]));
    assert_eq!(service.validate_token_at(&no_sub, NOW), Err(TokenError::Malformed));

    let no_iat = token_with("secret", object(vec![("sub", sub.clone()), ("exp", exp.clone())]));
    assert_eq!(service.validate_token_at(&no_iat, NOW), Err(TokenError::Malformed));

    let no_exp = token_with("secret", object(vec![("sub", sub.clone()), ("iat", iat.clone())]));
    assert_eq!(service.validate_token_at(&no_exp, NOW), Err(TokenError::Malformed));

    let all = token_with("secret", object(vec![("sub", sub), ("exp", exp), ("iat", iat)]));
    assert_eq!(
        service.validate_token_at(&all, NOW),
        Ok(Claims { sub: "someone".to_string(), exp: NOW + 10, iat: NOW })
    );
}

#[test]
fn token_with_claims_of_the_wrong_type_is_malformed() {
    let service = AuthService::new("secret");
    let exp = serde_json::Value::from(NOW as u64 + 10);
    let iat = serde_json::Value::from(NOW as u64);

    let number_sub = token_with(
        "secret",
        object(vec![("sub", serde_json::Value::from(5u64)), ("exp", exp.clone()), ("iat", iat.clone())]),
    );
    assert_eq!(service.validate_token_at(&number_sub, NOW), Err(TokenError::Malformed));

    let text_iat = token_with(
        "secret",
        object(vec![
            ("sub", serde_json::Value::from("someone")),
            ("exp", exp),
            ("iat", serde_json::Value::from("yesterday")),
        ]),
    );
    assert_eq!(service.validate_token_at(&text_iat, NOW), Err(TokenError::Malformed));

    let negative_exp = token_with(
        "secret",
        object(vec![
            ("sub", serde_json::Value::from("someone")),
            ("exp", serde_json::Value::from(-1i64)),
            ("iat", iat),
        ]),
    );
    assert_eq!(service.validate_token_at(&negative_exp, 0), Err(TokenError::Malformed));
}

#[test]
fn token_signed_with_another_algorithm_is_malformed() {
    let service = AuthService::new("secret");
    let payload = object(vec![
        ("sub", serde_json::Value::from("someone")),
        ("exp", serde_json::Value::from(NOW as u64 + 10)),
        ("iat", serde_json::Value::from(NOW as u64)),
    ]);
    let token = jsonwebtoken::encode(
        &jsonwebtoken::Header::new(jsonwebtoken::Algorithm::HS512),
        &payload,
        &jsonwebtoken::EncodingKey::from_secret("secret".as_bytes()),
    )
    .unwrap();
    assert_eq!(service.validate_token_at(&token, NOW), Err(TokenError::Malformed));
}

#[test]
fn issued_token_is_a_standard_token() {
    let token = AuthService::new("secret").generate_token(&plain_user(9)).unwrap();
    let data = jsonwebtoken::decode::<serde_json::Value>(
        &token,
        &jsonwebtoken::DecodingKey::from_secret("secret".as_bytes()),
        &jsonwebtoken::Validation::default(),
    )
    .unwrap();
    assert_eq!(data.claims.get("sub").unwrap().as_str(), Some("00000000-0000-0000-0000-000000000009"));
    let iat = data.claims.get("iat").unwrap().as_u64().unwrap();
    assert_eq!(data.claims.get("exp").unwrap().as_u64(), Some(iat + 86_400));
}

#[test]
fn check_claims_judges_signature_then_shape_then_expiry() {
    assert_eq!(AuthService::check_claims(Decoded::BadSignature, 0), Err(TokenError::InvalidSignature));
    assert_eq!(AuthService::check_claims(Decoded::Rejected, 0), Err(TokenError::Malformed));
    let payload = |sub: Option<&str>, exp: Option<u64>, iat: Option<u64>| Decoded::Payload {
        sub: sub.map(String::from),
        exp,
        iat,
    };
    assert_eq!(
        AuthService::check_claims(payload(None, Some(5), Some(1)), 9),
        Err(TokenError::Malformed)
    );
    assert_eq!(
        AuthService::check_claims(payload(Some("s"), None, Some(1)), 9),
        Err(TokenError::Malformed)
    );
    assert_eq!(
        AuthService::check_claims(payload(Some("s"), Some(5), None), 9),
        Err(TokenError::Malformed)
    );
    assert_eq!(
        AuthService::check_claims(payload(Some("s"), Some(5), Some(1)), 6),
        Err(TokenError::Expired)
    );
    assert_eq!(
        AuthService::check_claims(payload(Some("s"), Some(5), Some(1)), 5),
        Ok(Claims { sub: "s".to_string(), exp: 5, iat: 1 })
    );
    assert_eq!(
        AuthService::check_claims(payload(Some(""), Some(0), Some(0)), 0),
        Ok(Claims { sub: String::new(), exp: 0, iat: 0 })
    );
}

#[test]
fn every_token_failure_is_unauthorized_outwards() {
    assert_eq!(TokenError::InvalidSignature.outward(), AuthError::Unauthorized);
    assert_eq!(TokenError::Expired.outward(), AuthError::Unauthorized);
    assert_eq!(TokenError::Malformed.outward(), AuthError::Unauthorized);
}

#[test]
fn verify_gives_the_claims_or_unauthorized() {
    let service = AuthService::new("secret");
    let token = service.generate_token_at(&plain_user(3), NOW).unwrap();
    let claims = service.verify_at(&token, NOW).unwrap();
    assert_eq!(claims.sub, "00000000-0000-0000-0000-000000000003");
    assert_eq!(service.verify_at(&token, NOW + TOKEN_TTL_SECS + 1), Err(AuthError::Unauthorized));
    assert_eq!(service.verify_at("junk", NOW), Err(AuthError::Unauthorized));
    assert_eq!(AuthService::new("other").verify_at(&token, NOW), Err(AuthError::Unauthorized));
}

#[test]
fn login_issues_a_token_for_the_authenticated_user() {
    let service = AuthService::new("secret");
    let account = user(0x0123_4567_89ab_cdef_0123_4567_89ab_cdef);
    let request = LoginUser { email: "a@example.com".to_string(), password: "longenough1".to_string() };
    let AuthResponse { token, user: who } =
        service.login_at(&request, LookupReply::Found(account.clone()), NOW).unwrap();
    assert_eq!(who, account);
    let claims = service.verify_at(&token, NOW).unwrap();
    assert_eq!(claims.sub, who.id_text());
    assert_eq!(service.verify_at(&token, NOW + TOKEN_TTL_SECS + 1), Err(AuthError::Unauthorized));
}

#[test]
fn login_fails_as_authentication_fails() {
    let service = AuthService::new("secret");
    let good = LoginUser { email: "a@example.com".to_string(), password: "longenough1".to_string() };
    let wrong = LoginUser { email: "a@example.com".to_string(), password: "longenough2".to_string() };
    let bad = LoginUser { email: "nobody".to_string(), password: "longenough1".to_string() };
    assert_eq!(service.login_at(&wrong, LookupReply::Found(user(1)), NOW), Err(AuthError::Unauthorized));
    assert_eq!(service.login_at(&good, LookupReply::Missing, NOW), Err(AuthError::Unauthorized));
    assert_eq!(service.login_at(&good, LookupReply::Failed, NOW), Err(AuthError::Store));
    assert_eq!(service.login_at(&bad, LookupReply::Missing, NOW), Err(AuthError::Validation(Field::Email)));
    assert_eq!(service.login_at(&good, LookupReply::Found(user(1)), usize::MAX), Err(AuthError::Signing));
}

#[test]
fn login_with_the_real_clock_gives_a_token_that_verifies() {
    let service = AuthService::new("secret");
    let request = LoginUser { email: "a@example.com".to_string(), password: "longenough1".to_string() };
    let response = service.login(&request, LookupReply::Found(user(5))).unwrap();
    let claims = service.verify(&response.token).unwrap();
    assert_eq!(claims.sub, response.user.id_text());
}

#[test]
fn clock_reads_a_time_of_this_century() {
    let now = current_time();
    assert!(now > 1_600_000_000);
    assert!(now < usize::MAX);
}

#[test]
fn clock_reading_is_held_within_what_can_be_counted() {
    assert_eq!(time_from_reading(Some(0)), 0);
    assert_eq!(time_from_reading(Some(1_700_000_000)), 1_700_000_000);
    assert_eq!(time_from_reading(Some(u64::MAX)), usize::MAX);
    assert_eq!(time_from_reading(None), usize::MAX);
}
