//! Rows of the `players` table.

use vstd::prelude::*;

verus! {

/// A stored player, as read back from the table.
#[derive(Debug, Clone, PartialEq, Eq)]
pub struct Player {
    pub id: Option<i32>,
    pub username: String,
    pub hashed_password: String,
}

/// A player about to be inserted; the table assigns its id.
#[derive(Debug, Clone, Copy, PartialEq, Eq)]
pub struct NewPlayer<'a> {
    pub username: &'a str,
    pub hashed_password: &'a str,
}

} // verus!
