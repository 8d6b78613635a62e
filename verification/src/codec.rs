use vstd::prelude::*;

use hmac::Hmac;
use hmac::Mac;
use jwt::SignWithKey;
use jwt::VerifyWithKey;
use sha2::Sha256;
use std::collections::BTreeMap;

use crate::errors::TokenError;

verus! {

/// The bearer token that signing the claims `{uuid: session_id, exp}` with
/// an HMAC-SHA256 key derived from `secret` produces. Deterministic in all
/// three arguments, so the result of `sign_claims` has this name; nothing
/// else is assumed of it.
pub uninterp spec fn signed_token_of(secret: Seq<char>, session_id: Seq<char>, exp: i64) -> Seq<char>;

/// What decoding a presented token's claims without checking its signature
/// yields: the embedded session identifier, or nothing where the text does
/// not decode as a token carrying one. Deterministic in the token alone,
/// so the result of `get_uuid_from_token` has this name.
pub uninterp spec fn peeked_claims_of(token: Seq<char>) -> Option<Seq<char>>;

/// What HMAC verification of a presented token under `secret` yields: the
/// embedded session identifier and expiry where the signature matches and
/// the claims decode, nothing otherwise. Deterministic in both arguments,
/// so the result of `verify_claims` has this name.
pub uninterp spec fn verified_claims_of(secret: Seq<char>, token: Seq<char>) -> Option<
    (Seq<char>, i64),
>;

/// Relies on `jwt::SignWithKey::sign_with_key` with an `Hmac<Sha256>` key
/// built by `hmac::Mac::new_from_slice` from the secret's bytes: the claims
/// map `{uuid, exp}` serialized, base64-encoded and signed, a pure function
/// of the three arguments. Neither step has a failure path for this claims
/// shape: HMAC accepts keys of any length, and a string-to-string map
/// always serializes, so a token is always returned.
#[verifier::external_body]
fn sign_claims(secret: &str, session_id: &str, exp: i64) -> (r: String)
    ensures
        r@ == signed_token_of(secret@, session_id@, exp),
{
    let key: Hmac<Sha256> =
        Hmac::new_from_slice(secret.as_bytes()).expect("HMAC accepts keys of any length");
    let mut claims: BTreeMap<&str, String> = BTreeMap::new();
    claims.insert("uuid", session_id.to_string());
    claims.insert("exp", format!("{}", exp));
    claims.sign_with_key(&key).expect("a map of strings always serializes")
}

/// Every token signed with `secret` is accepted by a result `r` of
/// verification against `secret`, and yields back the claims it was built
/// from.
pub open spec fn accepts_own_tokens(
    secret: Seq<char>,
    token: Seq<char>,
    r: Result<(String, i64), TokenError>,
) -> bool {
    forall|u: Seq<char>, e: i64|
        token == #[trigger] signed_token_of(secret, u, e) ==> (r matches Ok(c) && c.0@ == u
            && c.1 == e)
}

/// Relies on `jwt::VerifyWithKey::verify_with_key`: re-signs the presented
/// token's claims with the secret and compares signatures, handing the
/// claims back only on a match. A token this module signed with the same
/// secret always passes and yields the claims it was built from; for every
/// token, acceptance and the claims handed back are exactly the named
/// verification outcome, a pure function of secret and token.
#[verifier::external_body]
fn verify_claims(secret: &str, token: &str) -> (r: Result<(String, i64), TokenError>)
    ensures
        accepts_own_tokens(secret@, token@, r),
        r matches Ok(c) ==> verified_claims_of(secret@, token@) == Some((c.0@, c.1)),
        r is Err ==> verified_claims_of(secret@, token@) is None,
        r matches Err(e) ==> e == TokenError::BadSignature || e == TokenError::Malformed,
{
    let key: Hmac<Sha256> =
        Hmac::new_from_slice(secret.as_bytes()).map_err(|_| TokenError::Malformed)?;
    let claims: BTreeMap<String, String> = match token.verify_with_key(&key) {
        Ok(c) => c,
        Err(jwt::Error::InvalidSignature) | Err(jwt::Error::RustCryptoMac(_)) => {
            return Err(TokenError::BadSignature)
        },
        Err(_) => return Err(TokenError::Malformed),
    };
    let uuid = claims.get("uuid").ok_or(TokenError::Malformed)?.clone();
    let exp: i64 =
        claims.get("exp").and_then(|e| e.parse().ok()).ok_or(TokenError::Malformed)?;
    Ok((uuid, exp))
}

/// A peek result `r` recovers the session identifier from any token signed
/// by this codec, whatever secret signed it.
pub open spec fn peek_recovers_id(token: Seq<char>, r: Option<String>) -> bool {
    forall|s: Seq<char>, u: Seq<char>, e: i64|
        token == #[trigger] signed_token_of(s, u, e) ==> (r matches Some(x) && x@ == u)
}

/// Relies on `jwt::Token::parse_unverified`: decodes the claims without
/// checking the signature, recovering the session identifier any signed
/// token embeds; what comes back is exactly the named peek outcome, a pure
/// function of the token. The result is untrusted and is used only as a
/// lookup key; trust comes from `check_jwt` afterwards.
#[verifier::external_body]
pub fn get_uuid_from_token(token: &str) -> (r: Option<String>)
    ensures
        peek_recovers_id(token@, r),
        r matches Some(x) ==> peeked_claims_of(token@) == Some(x@),
        r is None ==> peeked_claims_of(token@) is None,
{
    let parsed: jwt::Token<jwt::Header, BTreeMap<String, String>, _> =
        match jwt::Token::parse_unverified(token) {
            Ok(p) => p,
            Err(_) => return None,
        };
    parsed.claims().get("uuid").cloned()
}

/// Issue a token whose claims are the session identifier and an expiry
/// `token_lifetime` seconds past `now`, signed with `shared_key`. Signing
/// is total: a token is always returned.
pub fn new_jwt(shared_key: &String, uuid: &String, token_lifetime: i64, now: i64) -> (r: String)
    requires
        0 <= now,
        0 <= token_lifetime <= i64::MAX - now,
    ensures
        r@ == signed_token_of(shared_key@, uuid@, (now + token_lifetime) as i64),
{
    sign_claims(shared_key.as_str(), uuid.as_str(), now + token_lifetime)
}

/// What checking a token whose embedded expiry is `e` comes to at time
/// `now`, once its signature has matched: accepted up to and including the
/// expiry instant, expired after.
pub open spec fn jwt_outcome(e: i64, now: i64) -> Result<(), TokenError> {
    if e >= now {
        Ok(())
    } else {
        Err(TokenError::Expired)
    }
}

/// Check a presented token against `shared_key` at time `now`: accepted
/// exactly when the signature matches, the claims decode, and the embedded
/// expiry has not passed; expired exactly when only the expiry fails. For
/// a token this module signed with this key, the outcome is decided by the
/// expiry it was issued with.
pub fn check_jwt(shared_key: &String, jwt_token: &String, now: i64) -> (r: Result<
    (),
    TokenError,
>)
    ensures
        forall|u: Seq<char>, e: i64|
            jwt_token@ == #[trigger] signed_token_of(shared_key@, u, e) ==> r == jwt_outcome(
                e,
                now,
            ),
        r is Ok <==> (verified_claims_of(shared_key@, jwt_token@) matches Some(c) && c.1 >= now),
        r == Err::<(), TokenError>(TokenError::Expired) <==> (verified_claims_of(
            shared_key@,
            jwt_token@,
        ) matches Some(c) && c.1 < now),
{
    match verify_claims(shared_key.as_str(), jwt_token.as_str()) {
        Ok((_uuid, exp)) => {
            if exp >= now {
                Ok(())
            } else {
                Err(TokenError::Expired)
            }
        },
        Err(e) => Err(e),
    }
}

/// A token issued at `issued` with a non-negative lifetime passes the
/// expiry check at any instant up to its expiry, the issuing instant
/// included, and fails it as expired at any later instant: the two halves
/// of a token's life, stated over the outcome `check_jwt` promises for
/// every token this codec signed.
pub proof fn lemma_token_lifecycle(issued: i64, ttl: i64, now: i64, later: i64)
    requires
        0 <= issued,
        0 <= ttl <= i64::MAX - issued,
        issued <= now <= issued + ttl,
        later > issued + ttl,
    ensures
        jwt_outcome((issued + ttl) as i64, now) == Ok::<(), TokenError>(()),
        jwt_outcome((issued + ttl) as i64, later) == Err::<(), TokenError>(TokenError::Expired),
{
}

} // verus!
