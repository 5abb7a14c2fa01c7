//! Where the server keeps its players, and how its connection pool is sized.

pub mod models;

use vstd::prelude::*;

verus! {

/// The SQLite file that holds the players.
pub const DATABASE_PATH: &'static str = "database.sqlite3";

/// How many connections the pool keeps at most.
pub const POOL_MAX_SIZE: usize = 4;

} // verus!
