//! Salted adaptive password hashing, done by the `bcrypt` crate.
//!
//! The outcome of checking a password against a stored hash is a pure function
//! of the two strings; `bcrypt_check` names it. `None` stands for a check the
//! crate refuses (a malformed hash), `Some(b)` for a completed check.

use vstd::prelude::*;

verus! {

pub uninterp spec fn bcrypt_check(password: Seq<char>, hash: Seq<char>) -> Option<bool>;

/// The stored hash accepts this password.
pub open spec fn bcrypt_accepts(password: Seq<char>, hash: Seq<char>) -> bool {
    bcrypt_check(password, hash) == Some(true)
}

/// Relies on bcrypt::hash with bcrypt::DEFAULT_COST: on success it returns a
/// 60-character hash string beginning with '$' (never the plaintext format),
/// and bcrypt::verify accepts the hashed password against it; it fails only
/// when the operating system's randomness source does.
#[verifier::external_body]
pub(crate) fn hash_password(password: &str) -> (r: Result<String, String>)
    ensures
        r is Ok ==> bcrypt_accepts(password@, r->Ok_0@),
        r is Ok ==> r->Ok_0@.len() == 60 && r->Ok_0@[0] == '$',
{
    match bcrypt::hash(password, bcrypt::DEFAULT_COST) {
        Ok(h) => Ok(h),
        Err(e) => Err(format!("{}", e)),
    }
}

/// Relies on bcrypt::verify: its outcome depends on the password and the hash
/// alone, and it returns an error exactly when the hash cannot be checked.
#[verifier::external_body]
pub(crate) fn verify_password(password: &str, hash: &str) -> (r: Result<bool, String>)
    ensures
        r is Ok <==> bcrypt_check(password@, hash@) is Some,
        r is Ok ==> Some(r->Ok_0) == bcrypt_check(password@, hash@),
{
    match bcrypt::verify(password, hash) {
        Ok(b) => Ok(b),
        Err(e) => Err(format!("{}", e)),
    }
}

} // verus!
