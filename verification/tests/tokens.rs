use std::str::FromStr;
use std::time::{SystemTime, UNIX_EPOCH};

use auth_gate::jwt::auth::{
    claims_identity, create_token, create_token_at, gen_jwt, jwt_auth, jwt_str_auth, sign,
    try_create_token, try_create_token_at, Claims, EmptyClaim, Token, TokenError, TokenRole,
    ACCESS_LIFETIME, REFRESH_LIFETIME, SIGNING_SECRET,
};
use auth_gate::jwt::guard::role_by_name;
use auth_gate::jwt::signing::DecodeFailure;

const USER: u128 = 0x67e5_5044_10b1_426f_9247_bb68_0e5f_e0c8;

fn unix_now() -> u64 {
    SystemTime::now().duration_since(UNIX_EPOCH).unwrap().as_secs()
}

/// Reads the payload of a token signed with `secret`, telling nothing of expiry.
fn payload_of(token: &str, secret: &str) -> serde_json::Value {
    let mut validation = jsonwebtoken::Validation::default();
    validation.validate_exp = false;
    let key = jsonwebtoken::DecodingKey::from_secret(secret.as_bytes());
    jsonwebtoken::decode::<serde_json::Value>(token, &key, &validation).unwrap().claims
}

/// Signs an arbitrary payload with `secret`.
fn sign_payload(fields: Vec<(&str, serde_json::Value)>, secret: &str) -> String {
    let mut payload = serde_json::Map::new();
    for (name, value) in fields {
        payload.insert(name.to_owned(), value);
    }
    let key = jsonwebtoken::EncodingKey::from_secret(secret.as_bytes());
    jsonwebtoken::encode(&jsonwebtoken::Header::default(), &payload, &key).unwrap()
}

fn claims(email: &str, role: &str, exp: u64) -> Claims {
    Claims { sub: USER, email: email.to_owned(), role: role.to_owned(), exp }
}

#[test]
fn lifetimes_in_seconds() {
    assert_eq!(ACCESS_LIFETIME, 604_800);
    assert_eq!(REFRESH_LIFETIME, 2_592_000);
}

#[test]
fn issued_tokens_are_not_empty() {
    let token = create_token(USER, &"a@x".to_owned(), &"User".to_owned());
    assert!(!token.access_token.is_empty());
    assert!(!token.refresh_token.is_empty());
    assert_ne!(token.access_token, token.refresh_token);
}

#[test]
fn issued_tokens_have_three_parts() {
    let token = create_token_at(USER, &"a@x".to_owned(), &"User".to_owned(), unix_now());
    assert_eq!(token.access_token.split('.').count(), 3);
    assert_eq!(token.refresh_token.split('.').count(), 3);
    // The fixed header: {"typ":"JWT","alg":"HS256"}.
    assert!(token.access_token.starts_with("eyJ0eXAiOiJKV1QiLCJhbGciOiJIUzI1NiJ9."));
}

#[test]
fn access_token_carries_the_identity() {
    let now = unix_now();
    let token = create_token_at(USER, &"a@x".to_owned(), &"User".to_owned(), now);
    let payload = payload_of(&token.access_token, SIGNING_SECRET);
    assert_eq!(payload["sub"], "67e55044-10b1-426f-9247-bb680e5fe0c8");
    assert_eq!(payload["email"], "a@x");
    assert_eq!(payload["role"], "User");
    assert_eq!(payload["exp"], now + 604_800);
    assert_eq!(payload.as_object().unwrap().len(), 4);
}

#[test]
fn refresh_token_carries_the_subject_alone() {
    let now = unix_now();
    let token = create_token_at(USER, &"a@x".to_owned(), &"User".to_owned(), now);
    let payload = payload_of(&token.refresh_token, SIGNING_SECRET);
    assert_eq!(payload["sub"], "67e55044-10b1-426f-9247-bb680e5fe0c8");
    assert_eq!(payload["email"], "");
    assert_eq!(payload["role"], "");
    assert_eq!(payload["exp"], now + 2_592_000);
}

#[test]
fn expiry_counts_from_the_issue_time() {
    let token = create_token_at(7, &"e".to_owned(), &"Guest".to_owned(), 1_000);
    assert_eq!(payload_of(&token.access_token, SIGNING_SECRET)["exp"], 605_800);
    assert_eq!(payload_of(&token.refresh_token, SIGNING_SECRET)["exp"], 2_593_000);
    let token = create_token_at(7, &"e".to_owned(), &"Guest".to_owned(), 0);
    assert_eq!(payload_of(&token.access_token, SIGNING_SECRET)["exp"], 604_800);
    assert_eq!(payload_of(&token.refresh_token, SIGNING_SECRET)["exp"], 2_592_000);
}

#[test]
fn expiry_at_the_end_of_the_clock() {
    let last = u64::MAX - REFRESH_LIFETIME;
    let token = create_token_at(7, &"e".to_owned(), &"Guest".to_owned(), last);
    assert_eq!(payload_of(&token.refresh_token, SIGNING_SECRET)["exp"], u64::MAX);
    assert_eq!(
        payload_of(&token.access_token, SIGNING_SECRET)["exp"],
        u64::MAX - REFRESH_LIFETIME + ACCESS_LIFETIME
    );
}

#[test]
fn create_token_reads_the_clock() {
    let before = unix_now();
    let token = create_token(USER, &"a@x".to_owned(), &"User".to_owned());
    let after = unix_now();
    let access = payload_of(&token.access_token, SIGNING_SECRET)["exp"].as_u64().unwrap();
    let refresh = payload_of(&token.refresh_token, SIGNING_SECRET)["exp"].as_u64().unwrap();
    assert!(before + ACCESS_LIFETIME <= access && access <= after + ACCESS_LIFETIME);
    assert_eq!(refresh - access, REFRESH_LIFETIME - ACCESS_LIFETIME);
}

#[test]
fn payload_is_written_in_the_order_of_the_claims() {
    let token = gen_jwt(&claims("a@x", "User", 1_900_000_000));
    let expected = sign_payload(
        vec![
            ("sub", serde_json::Value::from("67e55044-10b1-426f-9247-bb680e5fe0c8")),
            ("email", serde_json::Value::from("a@x")),
            ("role", serde_json::Value::from("User")),
            ("exp", serde_json::Value::from(1_900_000_000u64)),
        ],
        SIGNING_SECRET,
    );
    assert_eq!(token, expected);
}

#[test]
fn signing_depends_on_the_claims_alone() {
    let first = gen_jwt(&claims("a@x", "User", 1_900_000_000));
    let second = gen_jwt(&claims("a@x", "User", 1_900_000_000));
    assert_eq!(first, second);
    assert_ne!(first, gen_jwt(&claims("a@x", "User", 1_900_000_001)));
    assert_ne!(first, gen_jwt(&claims("b@x", "User", 1_900_000_000)));
    assert_ne!(first, gen_jwt(&claims("a@x", "Admin", 1_900_000_000)));
}

#[test]
fn signed_text_is_a_token_and_not_the_claims() {
    let token = gen_jwt(&claims("a@x", "User", 1_900_000_000));
    assert!(!token.is_empty());
    assert!(!token.contains("a@x"));
    assert_eq!(
        token,
        "eyJ0eXAiOiJKV1QiLCJhbGciOiJIUzI1NiJ9.\
         eyJzdWIiOiI2N2U1NTA0NC0xMGIxLTQyNmYtOTI0Ny1iYjY4MGU1ZmUwYzgiLCJlbWFpbCI6ImFAeCIsInJvbGUiOiJVc2VyIiwiZXhwIjoxOTAwMDAwMDAwfQ."
            .to_owned()
            + token.rsplit('.').next().unwrap()
    );
}

#[test]
fn fresh_access_token_verifies() {
    let token = create_token(USER, &"a@x".to_owned(), &"User".to_owned());
    assert_eq!(
        jwt_str_auth(&token.access_token),
        Ok((USER, "a@x".to_owned(), "User".to_owned()))
    );
    assert_eq!(jwt_auth(&token.access_token), Ok((USER, "a@x".to_owned(), "User".to_owned())));
}

#[test]
fn fresh_refresh_token_is_malformed() {
    let token = create_token(USER, &"a@x".to_owned(), &"User".to_owned());
    assert_eq!(
        jwt_str_auth(&token.refresh_token),
        Err(TokenError::MalformedClaims(EmptyClaim::Email))
    );
    assert_eq!(jwt_auth(&token.refresh_token), Err(TokenError::MalformedClaims(EmptyClaim::Email)));
}

#[test]
fn token_without_a_role_is_malformed() {
    let token = gen_jwt(&claims("a@x", "", unix_now() + 600));
    assert_eq!(jwt_str_auth(&token), Err(TokenError::MalformedClaims(EmptyClaim::Role)));
}

#[test]
fn token_without_an_email_is_malformed() {
    let token = gen_jwt(&claims("", "User", unix_now() + 600));
    assert_eq!(jwt_str_auth(&token), Err(TokenError::MalformedClaims(EmptyClaim::Email)));
}

#[test]
fn token_signed_with_another_secret_is_invalid() {
    let now = unix_now();
    let forged = sign_payload(
        vec![
            ("sub", serde_json::Value::from("67e55044-10b1-426f-9247-bb680e5fe0c8")),
            ("email", serde_json::Value::from("a@x")),
            ("role", serde_json::Value::from("User")),
            ("exp", serde_json::Value::from(now + 600)),
        ],
        "another secret",
    );
    assert_eq!(jwt_str_auth(&forged), Err(TokenError::InvalidToken));
}

#[test]
fn tampered_token_is_invalid() {
    let token = create_token(USER, &"a@x".to_owned(), &"User".to_owned());
    let other = create_token(USER, &"a@x".to_owned(), &"Admin".to_owned());
    let parts: Vec<&str> = token.access_token.split('.').collect();
    let other_parts: Vec<&str> = other.access_token.split('.').collect();
    let spliced = format!("{}.{}.{}", parts[0], other_parts[1], parts[2]);
    assert_eq!(jwt_str_auth(&spliced), Err(TokenError::InvalidToken));
}

#[test]
fn misshapen_token_is_invalid() {
    assert_eq!(jwt_str_auth(&"".to_owned()), Err(TokenError::InvalidToken));
    assert_eq!(jwt_str_auth(&"not a token".to_owned()), Err(TokenError::InvalidToken));
    assert_eq!(jwt_str_auth(&"a.b".to_owned()), Err(TokenError::InvalidToken));
    assert_eq!(jwt_str_auth(&".".to_owned()), Err(TokenError::InvalidToken));
}

#[test]
fn token_with_an_unreadable_header_is_refused() {
    // Three parts, the first of which is no base64 of a header.
    assert_eq!(jwt_str_auth(&"a.b.c.d".to_owned()), Err(TokenError::Other));
    assert_eq!(jwt_str_auth(&"!.e30.c2ln".to_owned()), Err(TokenError::Other));
}

#[test]
fn expired_token_is_refused() {
    let token = create_token_at(USER, &"a@x".to_owned(), &"User".to_owned(), 0);
    assert_eq!(jwt_str_auth(&token.access_token), Err(TokenError::ExpiredSignature));
    assert_eq!(jwt_str_auth(&token.refresh_token), Err(TokenError::ExpiredSignature));
    let stale = gen_jwt(&claims("a@x", "User", unix_now() - 3_600));
    assert_eq!(jwt_str_auth(&stale), Err(TokenError::ExpiredSignature));
}

#[test]
fn token_that_names_no_expiry_is_refused() {
    let token = sign_payload(
        vec![
            ("sub", serde_json::Value::from("67e55044-10b1-426f-9247-bb680e5fe0c8")),
            ("email", serde_json::Value::from("a@x")),
            ("role", serde_json::Value::from("User")),
        ],
        SIGNING_SECRET,
    );
    assert_eq!(jwt_str_auth(&token), Err(TokenError::Other));
}

#[test]
fn token_with_claims_of_another_shape_is_refused() {
    let exp = unix_now() + 600;
    let no_email = sign_payload(
        vec![
            ("sub", serde_json::Value::from("67e55044-10b1-426f-9247-bb680e5fe0c8")),
            ("role", serde_json::Value::from("User")),
            ("exp", serde_json::Value::from(exp)),
        ],
        SIGNING_SECRET,
    );
    assert_eq!(jwt_str_auth(&no_email), Err(TokenError::Other));
    let no_uuid = sign_payload(
        vec![
            ("sub", serde_json::Value::from("someone")),
            ("email", serde_json::Value::from("a@x")),
            ("role", serde_json::Value::from("User")),
            ("exp", serde_json::Value::from(exp)),
        ],
        SIGNING_SECRET,
    );
    assert_eq!(jwt_str_auth(&no_uuid), Err(TokenError::Other));
    let numeric_role = sign_payload(
        vec![
            ("sub", serde_json::Value::from("67e55044-10b1-426f-9247-bb680e5fe0c8")),
            ("email", serde_json::Value::from("a@x")),
            ("role", serde_json::Value::from(3)),
            ("exp", serde_json::Value::from(exp)),
        ],
        SIGNING_SECRET,
    );
    assert_eq!(jwt_str_auth(&numeric_role), Err(TokenError::Other));
}

#[test]
fn token_with_further_claims_verifies() {
    let token = sign_payload(
        vec![
            ("sub", serde_json::Value::from("67E55044-10B1-426F-9247-BB680E5FE0C8")),
            ("email", serde_json::Value::from("a@x")),
            ("role", serde_json::Value::from("Guest")),
            ("exp", serde_json::Value::from(unix_now() + 600)),
            ("nickname", serde_json::Value::from("al")),
        ],
        SIGNING_SECRET,
    );
    assert_eq!(jwt_str_auth(&token), Ok((USER, "a@x".to_owned(), "Guest".to_owned())));
}

#[test]
fn decoder_reports_become_token_errors() {
    assert_eq!(TokenError::from_failure(DecodeFailure::InvalidToken), TokenError::InvalidToken);
    assert_eq!(TokenError::from_failure(DecodeFailure::InvalidSignature), TokenError::InvalidToken);
    assert_eq!(TokenError::from_failure(DecodeFailure::InvalidIssuer), TokenError::InvalidIssuer);
    assert_eq!(
        TokenError::from_failure(DecodeFailure::ExpiredSignature),
        TokenError::ExpiredSignature
    );
    assert_eq!(TokenError::from_failure(DecodeFailure::Other), TokenError::Other);
}

#[test]
fn decoded_claims_become_an_identity() {
    assert_eq!(
        claims_identity(Ok(claims("a@x", "User", 5))),
        Ok((USER, "a@x".to_owned(), "User".to_owned()))
    );
    assert_eq!(
        claims_identity(Ok(claims("", "User", 5))),
        Err(TokenError::MalformedClaims(EmptyClaim::Email))
    );
    assert_eq!(
        claims_identity(Ok(claims("a@x", "", 5))),
        Err(TokenError::MalformedClaims(EmptyClaim::Role))
    );
    assert_eq!(
        claims_identity(Ok(claims("", "", 5))),
        Err(TokenError::MalformedClaims(EmptyClaim::Email))
    );
    assert_eq!(claims_identity(Err(DecodeFailure::InvalidIssuer)), Err(TokenError::InvalidIssuer));
    assert_eq!(claims_identity(Err(DecodeFailure::InvalidSignature)), Err(TokenError::InvalidToken));
    assert_eq!(claims_identity(Err(DecodeFailure::Other)), Err(TokenError::Other));
}

#[test]
fn token_errors_have_a_sentence_each() {
    assert_eq!(TokenError::InvalidToken.message(), "Token is invalid");
    assert_eq!(TokenError::InvalidIssuer.message(), "Issuer is invalid");
    assert_eq!(TokenError::ExpiredSignature.message(), "Token expired");
    assert_eq!(TokenError::Other.message(), "Some other errors");
    assert_eq!(TokenError::MalformedClaims(EmptyClaim::Email).message(), "Email is empty");
    assert_eq!(TokenError::MalformedClaims(EmptyClaim::Role).message(), "Role is empty");
}

#[test]
fn default_token_is_empty() {
    let token = Token::default();
    assert_eq!(token.access_token, "");
    assert_eq!(token.refresh_token, "");
}

#[test]
fn issue_verify_and_guard() {
    let token = create_token(USER, &"a@x".to_owned(), &"User".to_owned());
    let (id, email, caller_role) = jwt_str_auth(&token.access_token).unwrap();
    assert_eq!(id, USER);
    assert_eq!(email, "a@x");
    assert_eq!(caller_role, "User");
    assert_eq!(role_by_name(&caller_role, "User"), Ok(()));
    assert_eq!(role_by_name(&caller_role, "Admin"), Ok(()));
}

#[test]
fn access_claims_hold_the_identity() {
    assert_eq!(
        Claims::access(USER, &"a@x".to_owned(), &"User".to_owned(), 1_000),
        Claims { sub: USER, email: "a@x".to_owned(), role: "User".to_owned(), exp: 605_800 }
    );
    assert_eq!(
        Claims::access(0, &"".to_owned(), &"".to_owned(), 0),
        Claims { sub: 0, email: "".to_owned(), role: "".to_owned(), exp: 604_800 }
    );
    assert_eq!(
        Claims::access(1, &"e".to_owned(), &"r".to_owned(), u64::MAX - 604_800).exp,
        u64::MAX
    );
}

#[test]
fn refresh_claims_hold_the_subject_alone() {
    assert_eq!(
        Claims::refresh(USER, 1_000),
        Claims { sub: USER, email: "".to_owned(), role: "".to_owned(), exp: 2_593_000 }
    );
    assert_eq!(Claims::refresh(USER, u64::MAX - 2_592_000).exp, u64::MAX);
}

#[test]
fn refresh_claims_stand_for_no_identity() {
    assert_eq!(
        claims_identity(Ok(Claims::refresh(USER, 1_000))),
        Err(TokenError::MalformedClaims(EmptyClaim::Email))
    );
    assert_eq!(
        claims_identity(Ok(Claims::access(USER, &"a@x".to_owned(), &"User".to_owned(), 1_000))),
        Ok((USER, "a@x".to_owned(), "User".to_owned()))
    );
}

#[test]
fn signing_reports_its_token() {
    let claims = claims("a@x", "User", 1_900_000_000);
    assert_eq!(sign(&claims), Ok(gen_jwt(&claims)));
    assert!(!sign(&claims).unwrap().is_empty());
}

#[test]
fn issuing_with_a_report_yields_the_same_pair() {
    let email = "a@x".to_owned();
    let role = "User".to_owned();
    let pair = try_create_token_at(USER, &email, &role, 1_900_000_000).unwrap();
    assert_eq!(pair, create_token_at(USER, &email, &role, 1_900_000_000));
    assert!(!pair.access_token.is_empty());
    assert!(!pair.refresh_token.is_empty());
}

#[test]
fn issuing_with_a_report_reads_the_clock() {
    let before = unix_now();
    let pair = try_create_token(USER, &"a@x".to_owned(), &"User".to_owned()).unwrap();
    let after = unix_now();
    let access = payload_of(&pair.access_token, SIGNING_SECRET)["exp"].as_u64().unwrap();
    assert!(before + ACCESS_LIFETIME <= access && access <= after + ACCESS_LIFETIME);
    assert_eq!(jwt_str_auth(&pair.access_token), Ok((USER, "a@x".to_owned(), "User".to_owned())));
    assert_eq!(
        jwt_str_auth(&pair.refresh_token),
        Err(TokenError::MalformedClaims(EmptyClaim::Email))
    );
}

#[test]
fn std_trait_parses_like_the_method() {
    for name in ["Admin", "User", "Guest", "admin", "DefaultTokenRole", "", "bogus"] {
        assert_eq!(
            <TokenRole as FromStr>::from_str(name),
            TokenRole::from_str(name)
        );
    }
}

#[test]
fn issuing_with_a_report_always_yields_a_pair() {
    let email = "a@x".to_owned();
    let role = "User".to_owned();
    assert!(try_create_token(USER, &email, &role).is_ok());
    assert!(try_create_token_at(USER, &email, &role, 0).is_ok());
    assert!(try_create_token(0, &"".to_owned(), &"".to_owned()).is_ok());
}

#[test]
fn tokens_are_never_empty() {
    for (email, role) in [("", ""), ("a@x", ""), ("", "User"), ("\u{0}\"\\", "\u{1f600}")] {
        for now in [0, 1, 1_900_000_000, u64::MAX - REFRESH_LIFETIME] {
            let pair = create_token_at(0, &email.to_owned(), &role.to_owned(), now);
            assert!(!pair.access_token.is_empty());
            assert!(!pair.refresh_token.is_empty());
            assert_eq!(try_create_token_at(0, &email.to_owned(), &role.to_owned(), now), Ok(pair));
        }
    }
    let claims = Claims { sub: u128::MAX, email: "".to_owned(), role: "".to_owned(), exp: u64::MAX };
    assert!(!gen_jwt(&claims).is_empty());
    assert_eq!(sign(&claims), Ok(gen_jwt(&claims)));
}

#[test]
fn accepted_identity_is_the_tokens_own() {
    let exp = unix_now() + 600;
    for (user, email, role) in [
        (0u128, "a@x", "User"),
        (u128::MAX, "quote\"and\\slash", "Admin"),
        (USER, "caf\u{e9}@x", "r\u{f6}le \u{1f600}"),
    ] {
        let token =
            gen_jwt(&Claims { sub: user, email: email.to_owned(), role: role.to_owned(), exp });
        assert_eq!(jwt_str_auth(&token), Ok((user, email.to_owned(), role.to_owned())));
        let payload = payload_of(&token, SIGNING_SECRET);
        assert_eq!(payload["sub"], uuid::Uuid::from_u128(user).to_string());
        assert_eq!(payload["email"], email);
        assert_eq!(payload["role"], role);
        assert_eq!(payload["exp"], exp);
    }
}
