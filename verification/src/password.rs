//! Password hashing and checking, done by the bcrypt crate.

use vstd::prelude::*;

verus! {

#[verifier::external_type_specification]
#[verifier::external_body]
pub struct ExBcryptError(bcrypt::BcryptError);

/// What `bcrypt::verify` answers for a password (taken as its UTF-8 text)
/// and a stored hash: `Some(matches)`, or `None` where the hash cannot be
/// read (it is malformed or names a cost outside 4..=31).
pub uninterp spec fn bcrypt_check(password: Seq<char>, hash: Seq<char>) -> Option<bool>;

/// The decimal digit `d` as a character.
pub open spec fn digit_char(d: u32) -> char {
    (48 + d) as char
}

/// The first seven characters of a bcrypt hash made with `cost`: the
/// version `$2b$`, the cost in two digits, and `$`.
pub open spec fn bcrypt_prefix(cost: u32) -> Seq<char> {
    seq!['$', '2', 'b', '$', digit_char(cost / 10), digit_char(cost % 10), '$']
}

/// `hash` is a bcrypt hash of `password`: checking the password against it
/// succeeds.
pub open spec fn hashes_password(hash: Seq<char>, password: Seq<char>) -> bool {
    bcrypt_check(password, hash) == Some(true)
}

/// Every password can be checked against `hash`: the check never finds
/// the hash unreadable.
pub open spec fn bcrypt_readable(hash: Seq<char>) -> bool {
    forall|password: Seq<char>| #[trigger] bcrypt_check(password, hash) is Some
}

/// Calls `bcrypt::hash(password, cost)`.
///
/// Trusted: bcrypt refuses a cost outside 4..=31; otherwise it draws a
/// random salt (which may fail), and writes `$2b$`, the cost in two digits,
/// `$` and 53 base64 characters, 60 in all. `bcrypt::verify` splits such a
/// hash back into the same cost and salt and recomputes the same digest, so
/// checking the same password against it answers `Some(true)`; checking any
/// password against it answers `Some(_)`, since the hash splits without
/// error and the cost it names is in range. Which salt is
/// drawn, and whether drawing it succeeds, is left unsaid.
#[verifier::external_body]
fn bcrypt_hash(password: &str, cost: u32) -> (res: Result<String, bcrypt::BcryptError>)
    ensures
        res is Ok ==> 4 <= cost <= 31,
        res matches Ok(h) ==> hashes_password(h@, password@),
        res matches Ok(h) ==> bcrypt_readable(h@),
        res matches Ok(h) ==> h@.len() == 60 && h@.subrange(0, 7) == bcrypt_prefix(cost),
{
    bcrypt::hash(password, cost)
}

/// Calls `bcrypt::verify(password, hash)`.
///
/// Trusted: the answer is the named `bcrypt_check` of the two strings, an
/// error exactly where that is `None`; bcrypt refuses every hash that
/// is not 60 ASCII characters.
#[verifier::external_body]
fn bcrypt_verify(password: &str, hash: &str) -> (res: Result<bool, bcrypt::BcryptError>)
    ensures
        res matches Ok(b) ==> bcrypt_check(password@, hash@) == Some(b),
        res is Err ==> bcrypt_check(password@, hash@) is None,
        hash@.len() != 60 ==> res is Err,
{
    bcrypt::verify(password, hash)
}

/// The bcrypt hash could not be made (a cost outside 4..=31, or no random
/// salt could be drawn).
#[derive(Debug, Clone, Copy, PartialEq, Eq, Structural)]
pub struct HashingFailed;

/// Hashes `password` with bcrypt at `cost`, with a fresh random salt.
pub fn hash_password(password: &str, cost: u32) -> (r: Result<String, HashingFailed>)
    ensures
        !(4 <= cost <= 31) ==> r is Err,
        r matches Ok(h) ==> hashes_password(h@, password@),
        r matches Ok(h) ==> bcrypt_readable(h@),
        r matches Ok(h) ==> h@.len() == 60 && h@.subrange(0, 7) == bcrypt_prefix(cost),
{
    match bcrypt_hash(password, cost) {
        Ok(hash) => Ok(hash),
        Err(_) => Err(HashingFailed),
    }
}

/// Checks `password` against a stored bcrypt hash: `Some(matches)`, or
/// `None` where the hash cannot be read.
pub fn check_password(password: &str, hash: &str) -> (r: Option<bool>)
    ensures
        r == bcrypt_check(password@, hash@),
        hash@.len() != 60 ==> r is None,
{
    match bcrypt_verify(password, hash) {
        Ok(matches) => Some(matches),
        Err(_) => None,
    }
}

} // verus!
