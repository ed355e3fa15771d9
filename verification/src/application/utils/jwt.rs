//! Access tokens: JSON Web Tokens signed with HMAC-SHA256 under the
//! application's secret, valid for 48 hours.
use vstd::prelude::*;
use jsonwebtoken::{decode, DecodingKey, Validation};
use serde_json::{from_value, Value};
use crate::application::dto::apperror::{AppError, Fault};
use crate::application::dto::token_dto::Claims;
use crate::application::services::access::outcome;

verus! {

/// How long an access token lives, in seconds (48 hours).
pub open spec fn token_lifetime() -> int {
    172_800
}

/// The token that `jsonwebtoken::encode` gives, with the default header
/// (HS256), for the claims `sub` (as hyphenated UUID text), `username`,
/// `exp` and `iat`, under the secret.
pub uninterp spec fn signed_token(sub: u128, username: Seq<char>, exp: usize, iat: usize, secret: Seq<char>) -> Seq<
    char,
>;

/// `jsonwebtoken::encode` with `Header::default()` and
/// `EncodingKey::from_secret`.  With an HMAC key and the HS256 header the
/// call has no error to give: the claims are a JSON object of strings and
/// numbers, and HMAC signs any message.
#[verifier::external_body]
fn jwt_encode(sub: u128, username: &str, exp: usize, iat: usize, secret: &str) -> (r: Result<String, String>)
    ensures
        match r {
            Ok(t) => t@ == signed_token(sub, username@, exp, iat, secret@),
            Err(_) => false,
        },
{
    let mut claims = serde_json::Map::new();
    claims.insert("sub".to_owned(), serde_json::Value::from(uuid::Uuid::from_u128(sub).to_string()));
    claims.insert("username".to_owned(), serde_json::Value::from(username));
    claims.insert("exp".to_owned(), serde_json::Value::from(exp));
    claims.insert("iat".to_owned(), serde_json::Value::from(iat));
    let key = jsonwebtoken::EncodingKey::from_secret(secret.as_bytes());
    jsonwebtoken::encode(&jsonwebtoken::Header::default(), &claims, &key).map_err(|e| e.to_string())
}

/// The claims of a token issued at `now` (seconds since the epoch): it
/// expires 48 hours later.
pub open spec fn claims_at(user_id: u128, username: String, now: i64) -> Claims {
    Claims { sub: user_id, username, exp: (now + token_lifetime()) as usize, iat: now as usize }
}

/// The claims of a token issued at `now` (seconds since the epoch).
pub fn token_claims(user_id: u128, username: String, now: i64) -> (c: Claims)
    requires
        now + token_lifetime() <= i64::MAX,
    ensures
        c == claims_at(user_id, username, now),
{
    let later: i64 = now + 172_800;
    Claims { sub: user_id, username, exp: later as usize, iat: now as usize }
}

/// The text of an optional secret.
pub open spec fn secret_text(secret: Option<&str>) -> Option<Seq<char>> {
    match secret {
        Some(s) => Some(s@),
        None => None,
    }
}

/// The answer to a request for a token: without a secret there is none.
pub open spec fn token_verdict(user_id: u128, username: Seq<char>, secret: Option<Seq<char>>, now: i64) -> Result<
    Seq<char>,
    Fault,
> {
    match secret {
        None => Err(Fault::InternalServerError("JWT_SECRET not found in environment"@)),
        Some(s) => Ok(
            signed_token(
                user_id,
                username,
                (now + token_lifetime()) as usize,
                now as usize,
                s,
            ),
        ),
    }
}

/// Signs a token for a user at time `now` (seconds since the epoch) under
/// the secret, if there is one.
pub fn generate_token_at(user_id: u128, username: String, secret: Option<&str>, now: i64) -> (r: Result<
    String,
    AppError,
>)
    requires
        now + token_lifetime() <= i64::MAX,
    ensures
        match r {
            Ok(t) => token_verdict(user_id, username@, secret_text(secret), now) == Ok::<Seq<char>, Fault>(t@),
            Err(e) => token_verdict(user_id, username@, secret_text(secret), now) == Err::<Seq<char>, Fault>(e@),
        },
{
    match secret {
        None => Err(AppError::InternalServerError("JWT_SECRET not found in environment".to_owned())),
        Some(s) => {
            let c = token_claims(user_id, username, now);
            match jwt_encode(c.sub, c.username.as_str(), c.exp, c.iat, s) {
                Ok(t) => Ok(t),
                Err(m) => Err(AppError::InternalServerError(m)),
            }
        },
    }
}

/// `chrono::Utc::now().timestamp()`: whole seconds since the Unix epoch,
/// within the dates that chrono can hold.
#[verifier::external_body]
fn utc_now_secs() -> (r: i64)
    ensures
        -8_334_601_315_200 <= r <= 8_210_266_876_799,
{
    chrono::Utc::now().timestamp()
}

/// Signs a token for a user now (read from the system clock) under the
/// secret, if there is one; the answer is that of [`generate_token_at`] at
/// that instant.  Should the clock read so late that the expiry lies beyond
/// the dates chrono can hold, it answers an internal error.
pub fn generate_token(user_id: u128, username: String, secret: Option<&str>) -> (r: Result<String, AppError>)
    ensures
        exists|now: i64|
            #![trigger token_verdict(user_id, username@, secret_text(secret), now)]
            -8_334_601_315_200 <= now <= 8_210_266_876_799 && if now + token_lifetime() > 8_210_266_876_799 {
                r matches Err(e) && e@ == Fault::InternalServerError("current time out of range"@)
            } else {
                match r {
                    Ok(t) => token_verdict(user_id, username@, secret_text(secret), now) == Ok::<Seq<char>, Fault>(t@),
                    Err(e) => token_verdict(user_id, username@, secret_text(secret), now) == Err::<Seq<char>, Fault>(e@),
                }
            },
{
    let now = utc_now_secs();
    let ghost verdict = token_verdict(user_id, username@, secret_text(secret), now);
    if now > 8_210_266_876_799 - 172_800 {
        return Err(AppError::InternalServerError("current time out of range".to_owned()));
    }
    generate_token_at(user_id, username, secret, now)
}

// ---------------------------------------------------------------- verification

/// `jsonwebtoken::decode` with `DecodingKey::from_secret` and
/// `Validation::default()` (HS256, the expiry checked against the clock with
/// a minute's leeway), the claims read as `sub` (UUID text), `username`,
/// `exp` and `iat`; the error's message otherwise.  Whether it accepts a token
/// depends on the time; what it reads from a token that was signed for
/// given claims under the same secret is those claims.
#[verifier::external_body]
fn jwt_decode(token: &str, secret: &str) -> (r: Result<(u128, String, usize, usize), String>)
    ensures
        forall|sub: u128, username: Seq<char>, exp: usize, iat: usize|
            #![trigger signed_token(sub, username, exp, iat, secret@)]
            token@ == signed_token(sub, username, exp, iat, secret@) ==> match r {
                Ok(c) => c.0 == sub && c.1@ == username && c.2 == exp && c.3 == iat,
                Err(_) => true,
            },
{
    let key = DecodingKey::from_secret(secret.as_bytes());
    let c = decode::<Value>(token, &key, &Validation::default()).map_err(|e| e.to_string())?.claims;
    let fields = Value::from(vec![c["sub"].clone(), c["username"].clone(), c["exp"].clone(), c["iat"].clone()]);
    let (sub, username, exp, iat) = from_value::<(uuid::Uuid, String, usize, usize)>(fields).map_err(
        |e| e.to_string(),
    )?;
    Ok((sub.as_u128(), username, exp, iat))
}

/// Whether claims `c` are those of every claim set that `token` is the
/// signed token of under `secret`.
pub open spec fn carries(token: Seq<char>, secret: Seq<char>, c: Claims) -> bool {
    forall|sub: u128, username: Seq<char>, exp: usize, iat: usize|
        #![trigger signed_token(sub, username, exp, iat, secret)]
        token == signed_token(sub, username, exp, iat, secret) ==> c.sub == sub && c.username@ == username && c.exp
            == exp && c.iat == iat
}

/// The claims of a token signed under the secret that has not expired.
/// Without a secret nothing is accepted; any other refusal (a bad signature,
/// an expired or malformed token) is an internal error with the decoder's
/// message.  The claims read back from a token are those it was signed for.
pub fn verify_token(token: &str, secret: Option<&str>) -> (r: Result<Claims, AppError>)
    ensures
        match r {
            Ok(c) => secret matches Some(s) && carries(token@, s@, c),
            Err(e) => e@ is InternalServerError && (secret is None ==> e@ == Fault::InternalServerError(
                "JWT_SECRET not found in environment"@,
            )),
        },
{
    match secret {
        None => Err(AppError::InternalServerError("JWT_SECRET not found in environment".to_owned())),
        Some(s) => match jwt_decode(token, s) {
            Ok(c) => Ok(Claims { sub: c.0, username: c.1, exp: c.2, iat: c.3 }),
            Err(m) => Err(AppError::InternalServerError(m)),
        },
    }
}

} // verus!
