//! Password hashes.

use vstd::prelude::*;

verus! {

/// `bcrypt::BcryptError`, the reason why a password was not hashed or a hash
/// was not read. It is carried through unread.
#[verifier::external_type_specification]
#[verifier::external_body]
pub struct ExBcryptError(bcrypt::BcryptError);

/// What `bcrypt::verify` makes of a password and a stored hash: `Some(true)`
/// when the hash is that of the password, `Some(false)` when it is the hash
/// of another one, and `None` when the hash cannot be read.
pub uninterp spec fn bcrypt_verdict(password: Seq<char>, hash: Seq<char>) -> Option<bool>;

/// `bcrypt::hash` at `bcrypt::DEFAULT_COST`. The salt is drawn at random, so
/// which hash comes back, and whether one does, is not promised. A hash that
/// does come back names its salt and its cost, and `bcrypt::verify` computes
/// from them what `bcrypt::hash` computed: it finds the hash to be that of
/// the password.
#[verifier::external_body]
fn bcrypt_hash(password: &str) -> (res: Result<String, bcrypt::BcryptError>)
    ensures
        res matches Ok(hash) ==> bcrypt_verdict(password@, hash@) == Some(true),
{
    bcrypt::hash(password, bcrypt::DEFAULT_COST)
}

/// `bcrypt::verify`. The call hashes the password again with the salt and the
/// cost that the stored hash names and compares the two, so its result
/// depends on the two texts alone.
#[verifier::external_body]
fn bcrypt_verify(password: &str, hash: &str) -> (res: Result<bool, bcrypt::BcryptError>)
    ensures
        bcrypt_verdict(password@, hash@) == match res {
            Ok(same) => Some(same),
            Err(_) => None::<bool>,
        },
{
    bcrypt::verify(password, hash)
}

/// Whether a verdict lets the user in: only a hash that was read and found
/// to be that of the password does.
pub open spec fn accepts(verdict: Option<bool>) -> bool {
    verdict == Some(true)
}

/// Whether `password` is the one that `hash` was made from. A hash that
/// cannot be read matches no password.
pub fn password_matches(password: &str, hash: &str) -> (ok: bool)
    ensures
        ok == accepts(bcrypt_verdict(password@, hash@)),
{
    match bcrypt_verify(password, hash) {
        Ok(same) => same,
        Err(_) => false,
    }
}

/// A fresh hash of `password`, or nothing when hashing failed. The hash is
/// salted at random, so two hashes of one password differ; each of them is
/// accepted for the password it was made from.
pub fn hash_password(password: &str) -> (hash: Option<String>)
    ensures
        hash matches Some(made) ==> accepts(bcrypt_verdict(password@, made@)),
{
    match bcrypt_hash(password) {
        Ok(hash) => Some(hash),
        Err(_) => None,
    }
}

} // verus!
