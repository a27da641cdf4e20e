//! Issuing the App assertion: the claims, the signature and the failures.

use http_handlers::client::GithubClient;
use http_handlers::exchange::{Action, Reply};
use http_handlers::jwt::{
    create, issue, signed_or_error, Claims, APP_ID, ASSERTION_LIFETIME, LIFETIME_CEILING,
};
use http_handlers::models::HandlersErr;
use jsonwebtoken::{decode, Algorithm, DecodingKey, Validation};
use rsa::pkcs1::EncodeRsaPrivateKey;
use rsa::pkcs8::{EncodePublicKey, LineEnding};
use rsa::{BigUint, RsaPrivateKey, RsaPublicKey};

/// The time on the clock in these tests: 2020-04-18 00:00:00 UTC.
const NOW: i64 = 1_587_168_000;

/// The RSA key pair of these tests in PEM form: the private key, framed as
/// GitHub hands one out for an App, and its public half.
///
/// The key is put together here from the two primes 2^1024 - 105 and
/// 3 * 2^1022 + 1037, so it protects nothing and is the same in every run.
fn key_pair() -> (String, String) {
    let p = (BigUint::from(1u32) << 1024usize) - BigUint::from(105u32);
    let q = (BigUint::from(3u32) << 1022usize) + BigUint::from(1037u32);
    let private = RsaPrivateKey::from_p_q(p, q, BigUint::from(65537u32)).unwrap();
    let public = RsaPublicKey::from(&private);
    (
        private.to_pkcs1_pem(LineEnding::LF).unwrap().to_string(),
        public.to_public_key_pem(LineEnding::LF).unwrap(),
    )
}

fn claims_of(token: &str, public_key: &str) -> serde_json::Value {
    let key = DecodingKey::from_rsa_pem(public_key.as_bytes()).unwrap();
    let mut validation = Validation::new(Algorithm::RS256);
    validation.validate_exp = false;
    decode::<serde_json::Value>(token, &key, &validation).unwrap().claims
}

#[test]
fn handlers_jwt_create() {
    let (private_key, _) = key_pair();
    match create("unit", private_key.as_bytes(), chrono::Utc::now().timestamp()) {
        Ok(token) => println!("{}", token),
        Err(e) => panic!("{}", e.message()),
    }
}

#[test]
fn client_jwt_create() {
    let (private_key, _) = key_pair();
    match create("unit", private_key.as_bytes(), chrono::Utc::now().timestamp()) {
        Ok(token) => println!("{}", token),
        Err(e) => panic!("{}", e.message()),
    }
}

#[test]
fn created_assertion_lives_nine_minutes() {
    let (private_key, public_key) = key_pair();
    let now = chrono::Utc::now().timestamp();
    let token = create("org/repo", private_key.as_bytes(), now).unwrap();
    let claims = claims_of(&token, &public_key);
    let issued = claims["iat"].as_i64().unwrap();
    let expires = claims["exp"].as_i64().unwrap();
    assert_eq!(expires - issued, 540);
    assert!(expires - issued <= 600);
    assert_eq!(issued, now);
    assert_eq!(claims["iss"].as_u64(), Some(61447));
    assert_eq!(claims["sub"].as_str(), Some("org/repo"));
    assert_eq!(claims["company"].as_str(), Some("dollar-ci"));
}

#[test]
fn created_assertion_is_an_rs256_token() {
    let (private_key, _) = key_pair();
    let token = create("unit", private_key.as_bytes(), NOW).unwrap();
    assert_eq!(token.split('.').count(), 3);
    let header = jsonwebtoken::decode_header(&token).unwrap();
    assert_eq!(header.alg, Algorithm::RS256);
    assert_eq!(header.typ.as_deref(), Some("JWT"));
}

#[test]
fn issued_assertion_carries_the_claims() {
    let (private_key, public_key) = key_pair();
    let claims = Claims::new("unit", 1_600_000_000);
    let token = issue(&claims, private_key.as_bytes()).unwrap();
    let decoded = claims_of(&token, &public_key);
    let members = decoded.as_object().unwrap();
    assert_eq!(members.len(), 5);
    assert_eq!(decoded["iat"].as_i64(), Some(1_600_000_000));
    assert_eq!(decoded["exp"].as_i64(), Some(1_600_000_540));
    assert_eq!(decoded["iss"].as_u64(), Some(61447));
    assert_eq!(decoded["sub"].as_str(), Some("unit"));
    assert_eq!(decoded["company"].as_str(), Some("dollar-ci"));
}

#[test]
fn claims_hold_what_they_were_made_with() {
    let claims = Claims::new("org/repo", 1_587_168_000);
    assert_eq!(claims.issued_at(), 1_587_168_000);
    assert_eq!(claims.expires_at(), 1_587_168_540);
    assert_eq!(claims.expires_at() - claims.issued_at(), ASSERTION_LIFETIME);
    assert!(claims.expires_at() - claims.issued_at() <= LIFETIME_CEILING);
    assert_eq!(claims.issuer(), APP_ID);
    assert_eq!(claims.subject(), "org/repo");
}

#[test]
fn claims_before_the_epoch() {
    let claims = Claims::new("", -540);
    assert_eq!(claims.issued_at(), -540);
    assert_eq!(claims.expires_at(), 0);
    assert_eq!(claims.subject(), "");
}

#[test]
fn claims_object_has_the_five_members() {
    let text = Claims::new("unit", 7).to_object().to_text().unwrap();
    let parsed: serde_json::Value = serde_json::from_str(&text).unwrap();
    let expected: serde_json::Value = serde_json::from_str(
        "{\"iat\":7,\"sub\":\"unit\",\"company\":\"dollar-ci\",\"iss\":61447,\"exp\":547}",
    )
    .unwrap();
    assert_eq!(parsed, expected);
}

#[test]
fn constants_of_the_assertion() {
    assert_eq!(APP_ID, 61447);
    assert_eq!(ASSERTION_LIFETIME, 540);
    assert_eq!(LIFETIME_CEILING, 600);
}

#[test]
fn empty_key_is_a_key_load_error() {
    assert_eq!(create("unit", b"", NOW), Err(HandlersErr::KeyLoadError));
}

#[test]
fn malformed_key_is_a_key_load_error() {
    assert_eq!(create("unit", b"not a key", NOW), Err(HandlersErr::KeyLoadError));
    let (private_key, _) = key_pair();
    let cut_short = &private_key[..private_key.len() / 2];
    assert_eq!(create("unit", cut_short.as_bytes(), NOW), Err(HandlersErr::KeyLoadError));
    let unframed: String = private_key.lines().filter(|line| !line.starts_with("-----")).collect();
    assert_eq!(create("unit", unframed.as_bytes(), NOW), Err(HandlersErr::KeyLoadError));
}

#[test]
fn key_of_another_kind_is_a_key_load_error() {
    let (_, public_key) = key_pair();
    let relabelled = public_key.replace("PUBLIC KEY", "SOMETHING ELSE");
    assert_eq!(
        issue(&Claims::new("unit", 0), relabelled.as_bytes()),
        Err(HandlersErr::KeyLoadError)
    );
}

#[test]
fn public_key_cannot_sign() {
    let (_, public_key) = key_pair();
    assert_eq!(create("unit", public_key.as_bytes(), NOW), Err(HandlersErr::SigningError));
}

#[test]
fn signing_outcomes() {
    assert_eq!(signed_or_error(Ok(String::from("a.b.c"))), Ok(String::from("a.b.c")));
    let failure = jsonwebtoken::errors::Error::from(jsonwebtoken::errors::ErrorKind::RsaFailedSigning);
    assert_eq!(signed_or_error(Err(failure)), Err(HandlersErr::SigningError));
}

#[test]
fn exchange_signs_the_assertion_with_the_key_it_is_given() {
    let (private_key, public_key) = key_pair();
    let (exchange, _) = GithubClient::new().check_run_start("org/repo", "deadbeef", 42);
    let (exchange, action) = exchange.advance(Reply::Key { pem: private_key.into_bytes() }, NOW);
    let request = match action {
        Action::Send { request } => request,
        other => panic!("expected the token request, got {:?}", other),
    };
    assert_eq!(request.url, "https://api.github.com/app/installations/42/access_tokens");
    let credential = request.headers.last().unwrap();
    assert_eq!(credential.name, "Authorization");
    let token = credential.value.strip_prefix("Bearer ").unwrap();
    let claims = claims_of(token, &public_key);
    assert_eq!(claims["sub"].as_str(), Some("org/repo"));
    assert_eq!(claims["iss"].as_u64(), Some(61447));
    assert_eq!(claims["exp"].as_i64().unwrap() - claims["iat"].as_i64().unwrap(), 540);

    let granted = Reply::Response { status: 201, body: Some(String::from("{\"token\":\"abc123\"}")) };
    let (_, action) = exchange.advance(granted, NOW + 7);
    let request = match action {
        Action::Send { request } => request,
        other => panic!("expected the check-run request, got {:?}", other),
    };
    let body: serde_json::Value = serde_json::from_str(&request.body.unwrap()).unwrap();
    assert_eq!(body["status"].as_str(), Some("in_progress"));
    assert_eq!(claims["iat"].as_i64(), Some(NOW));
    assert_eq!(body["startedAt"].as_i64(), Some(NOW + 7));
    assert_eq!(request.headers.last().unwrap().value, "token abc123");
}

#[test]
fn token_exchange_signs_for_the_name_it_was_begun_with() {
    let (private_key, public_key) = key_pair();
    let (exchange, _) = GithubClient::new().get_installation_token("unit", 1);
    let (_, action) = exchange.advance(Reply::Key { pem: private_key.into_bytes() }, NOW);
    match action {
        Action::Send { request } => {
            let value = &request.headers.last().unwrap().value;
            let claims = claims_of(value.strip_prefix("Bearer ").unwrap(), &public_key);
            assert_eq!(claims["sub"].as_str(), Some("unit"));
        }
        other => panic!("expected the token request, got {:?}", other),
    }
}

#[test]
fn exchange_with_a_public_key_ends_in_a_signing_error() {
    let (_, public_key) = key_pair();
    let (exchange, _) = GithubClient::new().check_run_create("org/repo", "deadbeef", 42);
    let (_, action) = exchange.advance(Reply::Key { pem: public_key.into_bytes() }, NOW);
    match action {
        Action::Finish { result } => assert_eq!(result, Err(HandlersErr::SigningError)),
        other => panic!("expected the end, got {:?}", other),
    }
}

#[test]
fn equal_name_key_and_time_give_the_same_token() {
    let (private_key, public_key) = key_pair();
    let first = create("unit", private_key.as_bytes(), 1_587_168_000).unwrap();
    let second = create("unit", private_key.as_bytes(), 1_587_168_000).unwrap();
    assert_eq!(first, second);
    let claims = claims_of(&first, &public_key);
    let expected: serde_json::Value = serde_json::from_str(
        "{\"iat\":1587168000,\"sub\":\"unit\",\"company\":\"dollar-ci\",\"iss\":61447,\"exp\":1587168540}",
    )
    .unwrap();
    assert_eq!(claims, expected);
}

#[test]
fn issuing_twice_with_equal_claims_gives_the_same_token() {
    let (private_key, _) = key_pair();
    let first = issue(&Claims::new("unit", 5), private_key.as_bytes());
    let second = issue(&Claims::new("unit", 5), private_key.as_bytes());
    assert!(first.is_ok());
    assert_eq!(first, second);
    let later = issue(&Claims::new("unit", 6), private_key.as_bytes());
    assert_ne!(first, later);
    let other = issue(&Claims::new("other", 5), private_key.as_bytes());
    assert_ne!(first, other);
}

#[test]
fn latest_time_that_can_be_issued_at() {
    let claims = Claims::new("unit", i64::MAX - 540);
    assert_eq!(claims.expires_at(), i64::MAX);
    assert_eq!(create("unit", b"", i64::MAX - 540), Err(HandlersErr::KeyLoadError));
}
