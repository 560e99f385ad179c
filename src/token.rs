use crate::error::AuthError;
use vstd::prelude::*;

verus! {

/// How long a session token stays valid: 24 hours, in seconds.
pub const SESSION_LIFETIME_SECS: i64 = 86400;

#[verifier::external_type_specification]
#[verifier::external_body]
pub struct ExJwtError(jsonwebtoken::errors::Error);

/// The HS256-signed JWT whose claims are `{"exp": exp, "sub": sub}`, signed
/// with `key`.
pub uninterp spec fn jwt_hs256(sub: Seq<char>, exp: int, key: Seq<u8>) -> Seq<char>;

/// The expiry of a token issued at `issued_at` (Unix seconds), where it can
/// be represented: non-negative and within `i64`.
pub open spec fn session_expiry(issued_at: int) -> Option<int> {
    let e = issued_at + SESSION_LIFETIME_SECS;
    if 0 <= e <= i64::MAX {
        Some(e)
    } else {
        None
    }
}

/// Relies on jsonwebtoken's `encode` with `Header::default()` (HS256) and
/// `EncodingKey::from_secret`: the token depends on its arguments alone. The
/// key's family matches the header's algorithm, a JSON object of a string and
/// a number always serializes, and HMAC signing cannot fail, so it returns `Ok`.
#[verifier::external_body]
fn jwt_encode_hs256(sub: &str, exp: u64, secret: &[u8]) -> (r: Result<
    String,
    jsonwebtoken::errors::Error,
>)
    ensures
        r is Ok,
        r->Ok_0@ == jwt_hs256(sub@, exp as int, secret@),
{
    let mut claims = serde_json::Map::new();
    claims.insert("sub".to_owned(), serde_json::Value::from(sub));
    claims.insert("exp".to_owned(), serde_json::Value::from(exp));
    let key = jsonwebtoken::EncodingKey::from_secret(secret);
    jsonwebtoken::encode(&jsonwebtoken::Header::default(), &claims, &key)
}

/// The last second that chrono represents: 262142-12-31T23:59:59 UTC.
pub const MAX_UNIX_SECS: i64 = 8_210_266_876_799;

/// Relies on chrono's `Utc::now()`: the current time in Unix seconds. It
/// panics rather than return a time before 1970 (`duration_since(UNIX_EPOCH)`)
/// or past `DateTime::MAX_UTC` (`from_timestamp(..).unwrap()`), so what it
/// returns lies in `0..=MAX_UNIX_SECS`.
#[verifier::external_body]
pub(crate) fn unix_now() -> (r: i64)
    ensures
        0 <= r <= MAX_UNIX_SECS,
{
    chrono::Utc::now().timestamp()
}

/// Issues a session token for `subject`, issued at `issued_at` and expiring
/// 24 hours later.
pub fn issue_token_at(subject: &str, secret: &[u8], issued_at: i64) -> (r: Result<
    String,
    AuthError,
>)
    ensures
        match session_expiry(issued_at as int) {
            Some(e) => r matches Ok(t) && t@ == jwt_hs256(subject@, e, secret@),
            None => r == Err::<String, AuthError>(AuthError::ClockOutOfRange),
        },
{
    if issued_at < -SESSION_LIFETIME_SECS || issued_at > i64::MAX - SESSION_LIFETIME_SECS {
        return Err(AuthError::ClockOutOfRange);
    }
    let exp = (issued_at + SESSION_LIFETIME_SECS) as u64;
    match jwt_encode_hs256(subject, exp, secret) {
        Ok(t) => Ok(t),
        Err(_) => Err(AuthError::TokenFailed),
    }
}

} // verus!
