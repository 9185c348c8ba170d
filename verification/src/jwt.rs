//! JSON Web Tokens, signed by HMAC with SHA-256.

use crate::json::{json_of, u64_field, Json};
use vstd::prelude::*;

verus! {

#[verifier::external_type_specification]
#[verifier::external_body]
pub struct ExJwtError(jsonwebtoken::errors::Error);

/// The token that carries `claims`, signed with `key`.
pub uninterp spec fn jwt_of(claims: Json, key: Seq<u8>) -> Seq<char>;

/// The claims of `token`, if it is signed with `key`, has an expiry and is not meant
/// for some audience: what it says for as long as it has not expired.
pub uninterp spec fn jwt_claims(token: Seq<char>, key: Seq<u8>) -> Option<Json>;

/// Whether `claims` is an object of nulls, booleans, integers and strings, none of
/// them under the key that `serde_json` keeps for itself.
pub open spec fn flat(claims: Json) -> bool {
    &&& claims matches Json::Object(m)
    &&& !m.contains_key("$serde_json::private::RawValue"@)
    &&& forall|k: Seq<char>| #[trigger]
        m.contains_key(k) ==> m[k] is Null || m[k] is Bool || m[k] is Int || m[k] is Str
}

/// Whether a token with `claims` can be read again while it has not expired: they
/// are flat, have an expiry and name no audience.
pub open spec fn lasting(claims: Json) -> bool {
    &&& flat(claims)
    &&& u64_field(claims, "exp"@) is Some
    &&& !claims->Object_0.contains_key("aud"@)
}

/// How long after its expiry a token is still good, in seconds.
pub const LEEWAY_SECS: u64 = 60;

/// Whether the clock, showing the second `now`, is past the expiry in `claims` by
/// more than the leeway. The difference is taken modulo 2^64, which makes itself
/// felt in the first minute of 1970 alone.
pub open spec fn expired(claims: Json, now: u64) -> bool {
    u64_field(claims, "exp"@) matches Some(exp) && exp < now.wrapping_sub(LEEWAY_SECS)
}

/// Whether `said` is what comes of reading `token` with `key` when the clock shows
/// the second `now`. Of an expiry that is no whole number nothing is said.
pub open spec fn verified_at(said: Option<Json>, token: Seq<char>, key: Seq<u8>, now: u64) -> bool {
    match said {
        Some(claims) => jwt_claims(token, key) == Some(claims) && !expired(claims, now),
        None => match jwt_claims(token, key) {
            Some(claims) => u64_field(claims, "exp"@) is None || expired(claims, now),
            None => true,
        },
    }
}

/// `jsonwebtoken::encode` with the header for HS256, which does not fail: a secret
/// fits that algorithm, and a `Value` can always be written. The token is signed
/// with `key`, and carries what `claims` holds.
#[verifier::external_body]
pub(crate) fn sign(claims: &serde_json::Value, key: &[u8]) -> (r: Result<String, jsonwebtoken::errors::Error>)
    ensures
        match r {
            Ok(t) => t@ == jwt_of(json_of(*claims), key@) && (lasting(json_of(*claims)) ==> jwt_claims(t@, key@)
                == Some(json_of(*claims))),
            Err(_) => false,
        },
{
    let header = jsonwebtoken::Header::new(jsonwebtoken::Algorithm::HS256);
    jsonwebtoken::encode(&header, claims, &jsonwebtoken::EncodingKey::from_secret(key))
}

/// `jsonwebtoken::decode` with the validation for HS256: hands out the claims of a
/// token that is signed with `key`, has an expiry and names no audience, unless the
/// clock is past the expiry by more than the leeway. It refuses every other token.
/// What the clock shows is left open. Where that is before 1970 it does not return,
/// nor, compiled with overflow checks, in the first minute of 1970.
#[verifier::external_body]
pub(crate) fn verify(token: &str, key: &[u8]) -> (r: Result<serde_json::Value, jsonwebtoken::errors::Error>)
    ensures
        match r {
            Ok(v) => exists|now: u64| #[trigger] verified_at(Some(json_of(v)), token@, key@, now),
            Err(_) => exists|now: u64| #[trigger] verified_at(None, token@, key@, now),
        },
{
    let validation = jsonwebtoken::Validation::new(jsonwebtoken::Algorithm::HS256);
    let key = jsonwebtoken::DecodingKey::from_secret(key);
    jsonwebtoken::decode::<serde_json::Value>(token, &key, &validation).map(|data| data.claims)
}

} // verus!
