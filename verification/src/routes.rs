//! The logic behind the server's routes.

pub mod auth;
pub mod players;

use vstd::prelude::*;

verus! {

/// The directory of the built client, served at the root.
pub const DIST_DIRECTORY: &'static str = "dist";

/// The directory of uploaded files, below the client's directory.
pub const UPLOADS_DIRECTORY: &'static str = "assets/uploads";

} // verus!
