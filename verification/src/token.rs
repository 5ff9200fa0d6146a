use vstd::prelude::*;
use std::collections::HashSet;

use crate::errors::ServiceError;
use crate::errors::TokenError;

verus! {

/// How long a freshly minted token stays valid, in seconds: 24 hours.
pub const TOKEN_LIFETIME_SECS: u64 = 86400;

/// The claims carried by a session token: the subject (a user id) and the
/// absolute Unix timestamp after which the token is no longer accepted.
/// A claims value is never mutated; a new token is a new value.
#[derive(Debug)]
pub struct Claims {
    pub sub: String,
    pub exp: u64,
}

/// What HS256 decoding recovers from `token` under `secret`: the pair
/// `(sub, exp)` when the token is a compact JWT whose signature verifies
/// against `secret` and whose claims carry a string `sub` and an unsigned
/// integer `exp`, and `None` otherwise. A pure function of its two arguments;
/// it carries a name rather than a definition, since writing it out would
/// mean restating base64 framing, JSON parsing and HMAC-SHA-256.
pub uninterp spec fn decoded_claims(secret: Seq<char>, token: Seq<char>) -> Option<(Seq<char>, int)>;

/// Relies on jsonwebtoken's `encode` with the default header, whose algorithm
/// is HS256: the returned compact token carries exactly the claims
/// `{sub, exp}` handed in, and `decode` under the same secret recovers them,
/// which is the documented round trip of the two calls.
#[verifier::external_body]
fn encode_claims(secret: &str, sub: &str, exp: u64) -> (r: Option<String>)
    ensures
        r matches Some(t) ==> decoded_claims(secret@, t@) == Some((sub@, exp as int)),
{
    let mut claims = serde_json::Map::new();
    claims.insert("sub".to_string(), serde_json::Value::String(sub.to_string()));
    claims.insert("exp".to_string(), serde_json::Value::from(exp));
    jsonwebtoken::encode(
        &jsonwebtoken::Header::default(),
        &serde_json::Value::Object(claims),
        &jsonwebtoken::EncodingKey::from_secret(secret.as_bytes()),
    )
    .ok()
}

/// Relies on jsonwebtoken's `decode`, with the accepted algorithm pinned to
/// HS256 so the token's own header cannot pick another, and with the built-in
/// expiry check turned off so that expiry is judged by verified code against
/// an explicit clock. The claims come back as plain values; any signature,
/// structure or claim failure comes back as `None`.
#[verifier::external_body]
fn decode_token(secret: &str, token: &str) -> (r: Option<(String, u64)>)
    ensures
        r matches Some(p) ==> decoded_claims(secret@, token@) == Some((p.0@, p.1 as int)),
        r is None ==> decoded_claims(secret@, token@) is None,
{
    let mut validation = jsonwebtoken::Validation::new(jsonwebtoken::Algorithm::HS256);
    validation.validate_exp = false;
    validation.required_spec_claims = HashSet::new();
    let key = jsonwebtoken::DecodingKey::from_secret(secret.as_bytes());
    let data = jsonwebtoken::decode::<serde_json::Value>(token, &key, &validation).ok()?;
    let sub = data.claims.get("sub")?.as_str()?.to_string();
    let exp = data.claims.get("exp")?.as_u64()?;
    Some((sub, exp))
}

/// The outcome `validate_jwt` is specified to produce at instant `now`: the
/// decoded claims when the token decodes under `secret` and its expiry has
/// not passed, otherwise the classification of the failure. An undecodable
/// token is `Invalid`; a decodable one whose `exp` lies before `now` is
/// `Expired`.
pub open spec fn validation_outcome(secret: Seq<char>, token: Seq<char>, now: u64) -> Result<
    (Seq<char>, int),
    TokenError,
> {
    match decoded_claims(secret, token) {
        Option::Some(p) => if p.1 < now {
            Result::Err(TokenError::Expired)
        } else {
            Result::Ok(p)
        },
        Option::None => Result::Err(TokenError::Invalid),
    }
}

/// Mints a signed session token for `user_id` at instant `now`: the embedded
/// claims are the subject itself and an expiry exactly `TOKEN_LIFETIME_SECS`
/// past `now`. The only failure is the signing call itself refusing, which is
/// a configuration fault, never caused by the subject value.
pub fn create_jwt(secret: &str, user_id: &str, now: u64) -> (r: Result<String, ServiceError>)
    requires
        now + TOKEN_LIFETIME_SECS <= u64::MAX,
    ensures
        r matches Ok(t) ==> decoded_claims(secret@, t@) == Some(
            (user_id@, now + TOKEN_LIFETIME_SECS as int),
        ),
        r matches Err(e) ==> e == ServiceError::Config,
{
    let exp = now + TOKEN_LIFETIME_SECS;
    match encode_claims(secret, user_id, exp) {
        Some(t) => Ok(t),
        None => Err(ServiceError::Config),
    }
}

/// Validates a bearer token against `secret` at instant `now` and returns its
/// claims. The algorithm is pinned to HS256 on the decoding side, so a token
/// naming any other algorithm is `Invalid` no matter what it carries; a token
/// that decodes but whose expiry lies before `now` is `Expired`.
pub fn validate_jwt(secret: &str, token: &str, now: u64) -> (r: Result<Claims, TokenError>)
    ensures
        r matches Ok(c) ==> validation_outcome(secret@, token@, now) == Result::<
            (Seq<char>, int),
            TokenError,
        >::Ok((c.sub@, c.exp as int)),
        r matches Err(e) ==> validation_outcome(secret@, token@, now) == Result::<
            (Seq<char>, int),
            TokenError,
        >::Err(e),
{
    match decode_token(secret, token) {
        Some(p) => {
            if p.1 < now {
                Err(TokenError::Expired)
            } else {
                Ok(Claims { sub: p.0, exp: p.1 })
            }
        },
        None => Err(TokenError::Invalid),
    }
}

/// Law: a token minted for subject `sub` at instant `mint_time` validates
/// successfully at any instant up to its expiry, and the subject it yields is
/// `sub` itself.
pub proof fn lemma_validate_after_mint(
    secret: Seq<char>,
    sub: Seq<char>,
    mint_time: u64,
    at: u64,
    token: Seq<char>,
)
    requires
        decoded_claims(secret, token) == Some((sub, mint_time + TOKEN_LIFETIME_SECS as int)),
        at <= mint_time + TOKEN_LIFETIME_SECS,
    ensures
        validation_outcome(secret, token, at) == Result::<(Seq<char>, int), TokenError>::Ok(
            (sub, mint_time + TOKEN_LIFETIME_SECS as int),
        ),
{
}

/// Law: a token minted at instant `mint_time` and checked after its lifetime
/// has fully passed fails with the expiry classification, not the generic
/// invalid one.
pub proof fn lemma_expired_after_lifetime(
    secret: Seq<char>,
    sub: Seq<char>,
    mint_time: u64,
    at: u64,
    token: Seq<char>,
)
    requires
        decoded_claims(secret, token) == Some((sub, mint_time + TOKEN_LIFETIME_SECS as int)),
        at > mint_time + TOKEN_LIFETIME_SECS,
    ensures
        validation_outcome(secret, token, at) == Result::<(Seq<char>, int), TokenError>::Err(
            TokenError::Expired,
        ),
{
}

/// Law: a token whose signature does not verify under the checking secret is
/// rejected as `Invalid`, whatever claims it carries; in particular a token
/// minted under a different secret fails this way whenever HMAC rejects it.
pub proof fn lemma_undecodable_rejected(secret: Seq<char>, token: Seq<char>, now: u64)
    requires
        decoded_claims(secret, token) is None,
    ensures
        validation_outcome(secret, token, now) == Result::<(Seq<char>, int), TokenError>::Err(
            TokenError::Invalid,
        ),
{
}

} // verus!
