//! Start-up decisions of the server.

use vstd::prelude::*;

verus! {

/// The port the server listens on, on every interface.
pub const SERVER_PORT: u16 = 3000;

/// The log filter used where the environment sets none.
pub const DEFAULT_LOG_FILTER: &'static str = "debug";

/// What happened when the uploads directory was created.
#[derive(Debug, Clone, Copy, PartialEq, Eq, Structural)]
pub enum DirectoryCreation {
    Created,
    AlreadyExists,
    Failed,
}

/// The server can go on with its uploads directory unless creating it failed
/// for another reason than that it already exists.
pub fn uploads_directory_ready(outcome: DirectoryCreation) -> (ready: bool)
    ensures
        ready == (outcome != DirectoryCreation::Failed),
{
    match outcome {
        DirectoryCreation::Created => true,
        DirectoryCreation::AlreadyExists => true,
        DirectoryCreation::Failed => false,
    }
}

} // verus!
