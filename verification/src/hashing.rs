use vstd::prelude::*;

use crate::BCRYPT_COST;

verus! {

/// What `bcrypt::verify(password, hash)` returns for a pair, with a
/// malformed hash counted as matching nothing. Deterministic in both
/// arguments: the salt and cost are read back out of the hash string.
pub uninterp spec fn bcrypt_matches(password: Seq<char>, hashed: Seq<char>) -> bool;

/// Relies on `bcrypt::hash`: a fresh salted hash of the password, which
/// `bcrypt::verify` accepts against the same password.
#[verifier::external_body]
pub fn hash_password(password: &str) -> (r: Option<String>)
    ensures
        r matches Some(h) ==> bcrypt_matches(password@, h@),
{
    bcrypt::hash(password, BCRYPT_COST).ok()
}

/// Relies on `bcrypt::verify`: recomputes the hash with the salt and cost
/// carried in `hashed` and compares. A hash string that does not parse
/// matches nothing.
#[verifier::external_body]
pub fn verify_password(password: &str, hashed: &str) -> (r: bool)
    ensures
        r == bcrypt_matches(password@, hashed@),
{
    bcrypt::verify(password, hashed).unwrap_or(false)
}

/// Hashing a password and verifying the same password against the result
/// succeeds, whenever the hasher produced a hash at all.
pub fn hash_then_verify(password: &str) -> (r: Option<bool>)
    ensures
        r matches Some(b) ==> b == true,
{
    match hash_password(password) {
        Some(h) => Some(verify_password(password, h.as_str())),
        None => None,
    }
}

} // verus!
