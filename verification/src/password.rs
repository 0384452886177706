//! Comparison of a password with a stored bcrypt hash.

use vstd::prelude::*;

verus! {

/// What bcrypt makes of `password` against the stored `hash`: `Some(true)`
/// when the password hashes to it, `Some(false)` when it does not, `None`
/// when `hash` is not a bcrypt hash.
pub uninterp spec fn bcrypt_outcome(password: Seq<char>, hash: Seq<char>) -> Option<bool>;

/// Calls `bcrypt::verify` on the bytes of `password` and on `hash`. The call
/// parses the hash, hashes the password with the salt and cost found in it
/// and compares in constant time; it reads nothing but its arguments. Its
/// outcome is named `bcrypt_outcome`, an error standing as `None`.
#[verifier::external_body]
fn bcrypt_verify(password: &str, hash: &str) -> (outcome: Option<bool>)
    ensures
        outcome == bcrypt_outcome(password@, hash@),
{
    bcrypt::verify(password, hash).ok()
}

/// Checks passwords against stored hashes.
pub struct PasswordVerifier;

impl PasswordVerifier {
    /// The password is the one the hash was made from.
    pub open spec fn spec_matches(password: Seq<char>, hash: Seq<char>) -> bool {
        bcrypt_outcome(password, hash) == Some(true)
    }

    /// Whether `password` is the one `hash` was made from. A hash that
    /// cannot be read matches no password.
    pub fn matches(password: &str, hash: &str) -> (ok: bool)
        ensures
            ok == Self::spec_matches(password@, hash@),
    {
        match bcrypt_verify(password, hash) {
            Some(same) => same,
            None => false,
        }
    }
}

} // verus!
