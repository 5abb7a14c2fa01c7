//! Rows of a `players` table that keeps no passwords.

use vstd::prelude::*;

verus! {

/// A stored player without a password.
#[derive(Debug, Clone, PartialEq, Eq)]
pub struct Player {
    pub id: Option<i32>,
    pub username: String,
}

/// A player without a password, about to be inserted.
#[derive(Debug, Clone, Copy, PartialEq, Eq)]
pub struct NewPlayer<'a> {
    pub username: &'a str,
}

} // verus!
