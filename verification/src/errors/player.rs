//! Errors of the player routes.

use vstd::prelude::*;

use crate::errors::AppError;

verus! {

/// Why a player could not be created.
#[derive(Debug, Clone, Copy, PartialEq, Eq, Structural)]
pub enum PlayerError {
    /// Another player already has the requested username.
    UsernameAlreadyExists,
}

/// The HTTP status and the message that answer a `PlayerError`.
pub open spec fn player_error_answer(e: PlayerError) -> (u16, &'static str) {
    match e {
        PlayerError::UsernameAlreadyExists => (422u16, "Username already in use"),
    }
}

impl From<PlayerError> for (u16, &'static str) {
    /// Unprocessable entity for a username that is taken.
    fn from(value: PlayerError) -> (r: (u16, &'static str)) {
        match value {
            PlayerError::UsernameAlreadyExists => (422, "Username already in use"),
        }
    }
}

impl vstd::std_specs::convert::FromSpecImpl<PlayerError> for (u16, &'static str) {
    open spec fn obeys_from_spec() -> bool {
        true
    }

    open spec fn from_spec(v: PlayerError) -> (u16, &'static str) {
        player_error_answer(v)
    }
}

impl From<PlayerError> for AppError {
    fn from(value: PlayerError) -> (r: AppError) {
        AppError::Player(value)
    }
}

impl vstd::std_specs::convert::FromSpecImpl<PlayerError> for AppError {
    open spec fn obeys_from_spec() -> bool {
        true
    }

    open spec fn from_spec(v: PlayerError) -> AppError {
        AppError::Player(v)
    }
}

} // verus!
