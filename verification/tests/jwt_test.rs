use backend::application::dto::apperror::AppError;
use backend::application::utils::jwt::{generate_token, generate_token_at, token_claims, verify_token};
use chrono::{Duration, Utc};
use jsonwebtoken::{encode, EncodingKey, Header};

const SECRET: &str = "super_secret_test_key_must_be_long_enough";

fn user_id() -> u128 {
    uuid::Uuid::new_v4().as_u128()
}

#[test]
fn test_generate_token_success() {
    let result = generate_token(user_id(), "test_user".to_string(), Some(SECRET));

    assert!(result.is_ok());
    let token = result.unwrap();

    // Header.Payload.Signature
    let parts: Vec<&str> = token.split('.').collect();
    assert_eq!(parts.len(), 3);
}

#[test]
fn test_generate_token_missing_secret() {
    let result = generate_token(user_id(), "fail_user".to_string(), None);

    assert!(result.is_err());
    assert_eq!(
        result.unwrap_err(),
        AppError::InternalServerError("JWT_SECRET not found in environment".to_string())
    );
}

#[test]
fn claims_expire_two_days_after_issue() {
    let c = token_claims(7, "alice".to_string(), 1_700_000_000);
    assert_eq!(c.sub, 7);
    assert_eq!(c.username, "alice");
    assert_eq!(c.iat, 1_700_000_000);
    assert_eq!(c.exp, 1_700_000_000 + 48 * 3600);
}

#[test]
fn token_carries_its_claims_and_verifies_under_the_secret() {
    let id = user_id();
    let token = generate_token_at(id, "carol".to_string(), Some(SECRET), 1_700_000_000).unwrap();

    let key = jsonwebtoken::DecodingKey::from_secret(SECRET.as_bytes());
    let mut validation = jsonwebtoken::Validation::default();
    validation.validate_exp = false;
    let data = jsonwebtoken::decode::<serde_json::Value>(&token, &key, &validation).unwrap();
    let claims = data.claims;
    assert_eq!(claims["sub"], serde_json::Value::from(uuid::Uuid::from_u128(id).to_string()));
    assert_eq!(claims["username"], serde_json::Value::from("carol"));
    assert_eq!(claims["iat"], serde_json::Value::from(1_700_000_000u64));
    assert_eq!(claims["exp"], serde_json::Value::from(1_700_000_000u64 + 172_800));
    assert_eq!(data.header.alg, jsonwebtoken::Algorithm::HS256);
}

#[test]
fn token_signed_at_one_instant_is_the_same_token() {
    let a = generate_token_at(1, "dave".to_string(), Some(SECRET), 1_000).unwrap();
    let b = generate_token_at(1, "dave".to_string(), Some(SECRET), 1_000).unwrap();
    let c = generate_token_at(1, "dave".to_string(), Some("another_secret"), 1_000).unwrap();
    assert_eq!(a, b);
    assert_ne!(a, c);
}

#[test]
fn token_without_secret_is_refused_at_any_instant() {
    let r = generate_token_at(1, "erin".to_string(), None, 5);
    assert_eq!(r, Err(AppError::InternalServerError("JWT_SECRET not found in environment".to_string())));
}

fn claims_of(username: &str, exp: i64, iat: i64) -> serde_json::Value {
    let mut m = serde_json::Map::new();
    m.insert("sub".to_string(), serde_json::Value::from(uuid::Uuid::new_v4().to_string()));
    m.insert("username".to_string(), serde_json::Value::from(username));
    m.insert("exp".to_string(), serde_json::Value::from(exp));
    m.insert("iat".to_string(), serde_json::Value::from(iat));
    serde_json::Value::Object(m)
}

fn signed_with(claims: &serde_json::Value, key: &str) -> String {
    encode(&Header::default(), claims, &EncodingKey::from_secret(key.as_bytes())).unwrap()
}

fn internal_message(r: Result<backend::application::dto::token_dto::Claims, AppError>) -> String {
    match r {
        Err(AppError::InternalServerError(msg)) => msg,
        other => panic!("Mauvais type d'erreur retourné: {:?}", other),
    }
}

#[test]
fn test_verify_token_valid() {
    let user_id = user_id();
    let username = "valid_user".to_string();

    let token = generate_token(user_id, username.clone(), Some(SECRET)).unwrap();

    let result = verify_token(&token, Some(SECRET));
    assert!(result.is_ok());

    let claims = result.unwrap();
    assert_eq!(claims.sub, user_id);
    assert_eq!(claims.username, username);

    let now = Utc::now().timestamp() as usize;
    assert!(claims.exp > now);
}

#[test]
fn test_verify_token_expired() {
    let claims = claims_of(
        "expired_user",
        (Utc::now() - Duration::hours(1)).timestamp(),
        (Utc::now() - Duration::hours(2)).timestamp(),
    );
    let token = signed_with(&claims, SECRET);
    let msg = internal_message(verify_token(&token, Some(SECRET)));
    assert!(msg.contains("ExpiredSignature"), "Message attendu 'ExpiredSignature', reçu: '{}'", msg);
}

#[test]
fn test_verify_token_wrong_signature() {
    let claims = claims_of("hacker", (Utc::now() + Duration::hours(1)).timestamp(), Utc::now().timestamp());
    let token = signed_with(&claims, "WRONG_KEY");

    let result = verify_token(&token, Some(SECRET));
    assert!(result.is_err());
    let msg = internal_message(result);
    assert!(msg.contains("InvalidSignature"), "Message attendu 'InvalidSignature', reçu: '{}'", msg);
}

#[test]
fn test_verify_token_malformed() {
    let result = verify_token("ceci.nest.pas.un.token", Some(SECRET));
    assert!(result.is_err());
}

#[test]
fn test_verify_token_tampered_payload() {
    let token = generate_token(user_id(), "user".to_string(), Some(SECRET)).unwrap();
    let parts: Vec<&str> = token.split('.').collect();
    let tampered_payload = "ew0KICAic3ViIjogIjEyMzQ1Njc4OTAiLA0KICAibmFtZSI6ICJKb2huIERvZSIsDQogICJpYXQiOiAxNTE2MjM5MDIyDQp9";
    let tampered_token = format!("{}.{}.{}", parts[0], tampered_payload, parts[2]);

    let result = verify_token(&tampered_token, Some(SECRET));
    assert!(result.is_err());
    if let Err(AppError::InternalServerError(msg)) = result {
        assert!(msg.contains("InvalidSignature"), "La signature ne devrait plus correspondre au payload modifié");
    }
}

#[test]
fn test_verify_missing_secret() {
    let result = verify_token("some.valid.structure", None);
    assert!(result.is_err());
    assert_eq!(
        result.unwrap_err(),
        AppError::InternalServerError("JWT_SECRET not found in environment".to_string())
    );
}

#[test]
fn issued_token_verifies_to_its_claims() {
    let now = Utc::now().timestamp();
    let token = generate_token_at(42, "erin".to_string(), Some(SECRET), now).unwrap();
    let c = verify_token(&token, Some(SECRET)).unwrap();
    assert_eq!(c.sub, 42);
    assert_eq!(c.username, "erin");
    assert_eq!(c.iat, now as usize);
    assert_eq!(c.exp, now as usize + 172_800);
    assert!(verify_token(&token, Some("another_secret")).is_err());
}
