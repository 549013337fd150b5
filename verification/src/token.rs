//! Issuance and validation of signed, time-bound identity tokens.
//!
//! A token embeds `{exp, uuid}` signed with a server-held secret (HMAC-SHA256
//! class). Two names tie the contracts to the signer: `jwt_of` is the token
//! string that embedding given claims produces, and `jwt_claims_of` is what
//! decoding an arbitrary string under a secret yields — `None` exactly on
//! the malformed and the wrongly signed. Issuance promises exactly the
//! `jwt_of` string; validation accepts exactly the tokens whose decoding
//! succeeds, and the expiry comparison is exact and happens here, in
//! verified code: a token is accepted if and only if the check's timestamp
//! is strictly below the token's expiry.

use vstd::prelude::*;

use crate::auth_gate::is_token_space;
use crate::errors::TokenError;

verus! {

/// The decoded payload of an identity token: the subject and the absolute
/// expiry timestamp (seconds since the Unix epoch).
#[derive(Clone, Debug)]
pub struct UserClaims {
    pub exp: u64,
    pub uuid: String,
}

/// The signed token string that embedding claims `{exp, uuid}` under the
/// given secret produces: a deterministic function of the three arguments.
pub uninterp spec fn jwt_of(secret: Seq<char>, exp: u64, uuid: Seq<char>) -> Seq<char>;

/// What decoding an arbitrary string under the given secret yields — the
/// embedded claims where the string is a well-formed token whose signature
/// verifies, and `None` otherwise. Deterministic in the two arguments: the
/// decoder checks a signature, it consults no clock and draws no randomness.
pub uninterp spec fn jwt_claims_of(secret: Seq<char>, token: Seq<char>) -> Option<(u64, Seq<char>)>;

/// Relies on jsonwebtoken::encode with the default header (HS256): the key
/// family matches the algorithm, the HMAC accepts a secret of any length,
/// and a string-keyed claims object always serializes, so signing cannot
/// fail; it is deterministic in the claims and the secret, so the result is
/// exactly `jwt_of(secret, exp, uuid)`. The token is three URL-safe base64
/// parts joined by dots: never empty, never whitespace at either end.
#[verifier::external_body]
fn encode_claims(exp: u64, uuid: &str, secret: &str) -> (r: String)
    ensures
        r@ == jwt_of(secret@, exp, uuid@),
        r@.len() > 0,
        !is_token_space(r@[0]),
        !is_token_space(r@[r@.len() - 1]),
{
    let mut claims = serde_json::Map::new();
    claims.insert("exp".to_string(), serde_json::Value::from(exp));
    claims.insert("uuid".to_string(), serde_json::Value::from(uuid));
    let key = jsonwebtoken::EncodingKey::from_secret(secret.as_bytes());
    let header = jsonwebtoken::Header::default();
    jsonwebtoken::encode(&header, &serde_json::Value::Object(claims), &key)
        .expect("signing with an HMAC secret under the default header cannot fail")
}

/// What decoding promises for every token that `jsonwebtoken::encode`
/// produced under `secret`, when the result is `r`: for every claims pair
/// whose signed embedding is `token`, `r` carries exactly that pair.
pub open spec fn decoded_claims_exact(
    secret: Seq<char>,
    token: Seq<char>,
    r: Option<(u64, String)>,
) -> bool {
    forall|e: u64, s: Seq<char>|
        token == #[trigger] jwt_of(secret, e, s) ==> (r matches Some(p) && p.0 == e && p.1@ == s)
}

/// Relies on jsonwebtoken::decode (HS256, expiry checking disabled so that
/// the caller's own exact check decides): decoding verifies the signature
/// and hands back the embedded claims, or fails on a malformed or wrongly
/// signed token — `jwt_claims_of` names that outcome. On any string that
/// jsonwebtoken::encode produced under the same secret it returns exactly
/// the claims that went in.
#[verifier::external_body]
fn decode_claims(token: &str, secret: &str) -> (r: Option<(u64, String)>)
    ensures
        r matches Some(p) ==> jwt_claims_of(secret@, token@) == Some((p.0, p.1@)),
        r is None ==> jwt_claims_of(secret@, token@) is None,
        decoded_claims_exact(secret@, token@, r),
{
    let mut validation = jsonwebtoken::Validation::new(jsonwebtoken::Algorithm::HS256);
    validation.validate_exp = false;
    validation.required_spec_claims = std::collections::HashSet::new();
    let key = jsonwebtoken::DecodingKey::from_secret(secret.as_bytes());
    let data = jsonwebtoken::decode::<serde_json::Value>(token, &key, &validation).ok()?;
    let exp = data.claims.get("exp")?.as_u64()?;
    let uuid = data.claims.get("uuid")?.as_str()?.to_string();
    Some((exp, uuid))
}

/// Relies on chrono::Utc::now: the current time as whole seconds since the
/// Unix epoch. Nothing can be promised of a clock reading.
#[verifier::external_body]
pub(crate) fn now_timestamp() -> (r: i64) {
    chrono::Utc::now().timestamp()
}

impl UserClaims {
    /// Claims expiring `user_jwt_expiration_minutes` minutes from now, for
    /// the given subject. `None` when the clock reading is before the epoch
    /// or the expiry would not fit a timestamp.
    pub fn new(user_jwt_expiration_minutes: i64, uuid: String) -> (r: Option<UserClaims>)
        requires
            0 < user_jwt_expiration_minutes,
        ensures
            r matches Some(c) ==> c.uuid == uuid && c.exp >= user_jwt_expiration_minutes * 60,
    {
        let now = now_timestamp();
        if now < 0 {
            return None;
        }
        let window = (user_jwt_expiration_minutes as u64).checked_mul(60)?;
        let exp = (now as u64).checked_add(window)?;
        Some(UserClaims { exp, uuid })
    }
}

/// Issues a token for the given subject: the expiry is exactly `now` plus
/// the window, and the token is the signed embedding of those claims —
/// nonempty, with no whitespace at its edges, so a header framing it
/// carries it intact.
pub fn issue(uuid: &str, expiration_minutes: i64, secret: &str, now: i64) -> (r: (String, u64))
    requires
        0 < expiration_minutes,
        0 <= now,
        now + expiration_minutes * 60 <= u64::MAX,
    ensures
        r.1 == now + expiration_minutes * 60,
        r.0@ == jwt_of(secret@, r.1, uuid@),
        r.0@.len() > 0,
        !is_token_space(r.0@[0]),
        !is_token_space(r.0@[r.0@.len() - 1]),
{
    let exp: u64 = (now as u64) + (expiration_minutes as u64) * 60;
    let token = encode_claims(exp, uuid, secret);
    (token, exp)
}

/// Validates a token against the secret at time `now`: the signature must
/// check out and the expiry must lie strictly in the future. The outcome is
/// exact over `jwt_claims_of`: a token that does not decode — malformed, or
/// signed with another secret — fails with `Invalid`; one that decodes to
/// claims fails with `Expired` when `now` has reached their expiry and
/// yields exactly those claims otherwise. In particular, every token of the
/// shape `jwt_of(secret, e, s)` round-trips to `(e, s)` while `now < e`.
pub fn validate_token(token: &str, secret: &str, now: u64) -> (r: Result<UserClaims, TokenError>)
    ensures
        r matches Ok(c) ==> jwt_claims_of(secret@, token@) == Some((c.exp, c.uuid@)) && now
            < c.exp,
        r == Err::<UserClaims, TokenError>(TokenError::Invalid) <==> jwt_claims_of(
            secret@,
            token@,
        ) is None,
        jwt_claims_of(secret@, token@) matches Some(p) ==> if now < p.0 {
            r matches Ok(c) && c.exp == p.0 && c.uuid@ == p.1
        } else {
            r == Err::<UserClaims, TokenError>(TokenError::Expired)
        },
        forall|e: u64, s: Seq<char>|
            token@ == #[trigger] jwt_of(secret@, e, s) ==> if now < e {
                r matches Ok(c) && c.exp == e && c.uuid@ == s
            } else {
                r == Err::<UserClaims, TokenError>(TokenError::Expired)
            },
{
    match decode_claims(token, secret) {
        None => Err(TokenError::Invalid),
        Some((exp, uuid)) => {
            if now < exp {
                Ok(UserClaims { exp, uuid })
            } else {
                Err(TokenError::Expired)
            }
        },
    }
}

} // verus!
