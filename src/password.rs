//! Salted password hashing and verification with bcrypt.
use vstd::prelude::*;
use crate::error::ApiError;

verus! {

/// The bcrypt work factor used for every stored password.
pub const HASH_COST: u32 = 14;

#[verifier::external_type_specification]
#[verifier::external_body]
pub struct ExBcryptError(bcrypt::BcryptError);

/// What `bcrypt::verify(password, hash)` gives: `Some(matches)` when `hash` is
/// a well-formed bcrypt string, `None` when bcrypt rejects it.
pub uninterp spec fn bcrypt_verdict(password: Seq<char>, hash: Seq<char>) -> Option<bool>;

/// The text that starts every hash made with work factor `cost`: `$2b$`, the
/// cost as two decimal digits, and `$`.
pub open spec fn hash_prefix(cost: u32) -> Seq<char> {
    seq!['$', '2', 'b', '$', digit_char(cost / 10), digit_char(cost % 10), '$']
}

pub open spec fn digit_char(d: u32) -> char {
    ((d + 48) as u8) as char
}

/// A bcrypt hash string of work factor `cost` that `password` verifies against.
pub open spec fn is_hash_of(password: Seq<char>, hash: Seq<char>, cost: u32) -> bool {
    &&& hash.len() == 60
    &&& hash.subrange(0, 7) == hash_prefix(cost)
    &&& bcrypt_verdict(password, hash) == Some(true)
}

/// Relies on `bcrypt::hash`: it refuses a cost outside 4..=31; otherwise it
/// fails only when the system gives no random salt, and returns
/// `$2b$<cost>$` followed by 53 characters of salt and digest, which
/// `bcrypt::verify` accepts for the same password.
#[verifier::external_body]
fn bcrypt_hash(password: &str, cost: u32) -> (r: Result<String, bcrypt::BcryptError>)
    ensures
        !(4 <= cost <= 31) ==> r is Err,
        r matches Ok(h) ==> is_hash_of(password@, h@, cost),
{
    bcrypt::hash(password, cost)
}

/// Relies on `bcrypt::verify`: the answer depends on the password and the
/// hash string alone; an error means the hash string was refused.
#[verifier::external_body]
fn bcrypt_verify(password: &str, hash: &str) -> (r: Result<bool, bcrypt::BcryptError>)
    ensures
        match r {
            Ok(b) => bcrypt_verdict(password@, hash@) == Some(b),
            Err(_) => bcrypt_verdict(password@, hash@) is None,
        },
{
    bcrypt::verify(password, hash)
}


/// Hashes `password` with a fresh random salt at work factor `HASH_COST`.
///
/// Any failure of the hashing primitive is a server error.
pub fn hash_password(password: String) -> (r: Result<String, ApiError>)
    ensures
        match r {
            Ok(h) => is_hash_of(password@, h@, HASH_COST),
            Err(e) => e == ApiError::ServerError,
        },
{
    match bcrypt_hash(password.as_str(), HASH_COST) {
        Ok(h) => Ok(h),
        Err(_) => Err(ApiError::ServerError),
    }
}

/// Checks `password` against a stored bcrypt hash.
///
/// A malformed hash is a server error.
pub fn verify_password(password: String, hash_password: &str) -> (r: Result<bool, ApiError>)
    ensures
        match bcrypt_verdict(password@, hash_password@) {
            Some(b) => r == Ok::<bool, ApiError>(b),
            None => r == Err::<bool, ApiError>(ApiError::ServerError),
        },
{
    match bcrypt_verify(password.as_str(), hash_password) {
        Ok(b) => Ok(b),
        Err(_) => Err(ApiError::ServerError),
    }
}

/// Whatever salts two hashings of one password drew, the password verifies
/// against both results.
pub proof fn lemma_hashes_of_one_password_verify(password: Seq<char>, h1: Seq<char>, h2: Seq<char>)
    requires
        is_hash_of(password, h1, HASH_COST),
        is_hash_of(password, h2, HASH_COST),
    ensures
        bcrypt_verdict(password, h1) == Some(true),
        bcrypt_verdict(password, h2) == Some(true),
{
}

} // verus!
