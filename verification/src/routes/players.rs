//! Player registration.

use vstd::prelude::*;

use crate::database::models::NewPlayer;
use crate::password::{bcrypt_prefix, bcrypt_readable, hash_password, hashes_password, HashingFailed};

verus! {

/// The bcrypt cost at which registration hashes passwords.
pub const PASSWORD_HASH_COST: u32 = 14;

/// The body of a registration request.
#[derive(Debug, Clone, PartialEq, Eq)]
pub struct PlayerPayload {
    pub username: String,
    pub password: String,
}

impl PlayerPayload {
    /// The bcrypt hash of the requested password, at `PASSWORD_HASH_COST`,
    /// with a fresh random salt.
    pub fn hashed_password(&self) -> (r: Result<String, HashingFailed>)
        ensures
            r matches Ok(h) ==> hashes_password(h@, self.password@),
            r matches Ok(h) ==> bcrypt_readable(h@),
            r matches Ok(h) ==> h@.len() == 60 && h@.subrange(0, 7) == bcrypt_prefix(
                PASSWORD_HASH_COST,
            ),
    {
        hash_password(self.password.as_str(), PASSWORD_HASH_COST)
    }

    /// The row to insert for this request, with the given hash of its password.
    pub fn new_player<'a>(&'a self, hashed_password: &'a str) -> (p: NewPlayer<'a>)
        ensures
            p.username@ == self.username@,
            p.hashed_password@ == hashed_password@,
    {
        NewPlayer { username: self.username.as_str(), hashed_password }
    }
}

} // verus!
