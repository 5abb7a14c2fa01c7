//! Errors of the login route.

use vstd::prelude::*;

use crate::errors::AppError;

verus! {

/// Why a login was refused.
#[derive(Debug, Clone, Copy, PartialEq, Eq, Structural)]
pub enum AuthError {
    /// The username or the password was empty.
    MissingCredentials,
    /// The password does not match the stored hash.
    InvalidCredentials,
}

/// The HTTP status and the message that answer an `AuthError`.
pub open spec fn auth_error_answer(e: AuthError) -> (u16, &'static str) {
    match e {
        AuthError::MissingCredentials => (400u16, "Missing credentials"),
        AuthError::InvalidCredentials => (401u16, "Invalid credentials"),
    }
}

impl From<AuthError> for (u16, &'static str) {
    /// Bad request for missing credentials, unauthorized for wrong ones.
    fn from(value: AuthError) -> (r: (u16, &'static str)) {
        match value {
            AuthError::MissingCredentials => (400, "Missing credentials"),
            AuthError::InvalidCredentials => (401, "Invalid credentials"),
        }
    }
}

impl vstd::std_specs::convert::FromSpecImpl<AuthError> for (u16, &'static str) {
    open spec fn obeys_from_spec() -> bool {
        true
    }

    open spec fn from_spec(v: AuthError) -> (u16, &'static str) {
        auth_error_answer(v)
    }
}

impl From<AuthError> for AppError {
    fn from(value: AuthError) -> (r: AppError) {
        AppError::Auth(value)
    }
}

impl vstd::std_specs::convert::FromSpecImpl<AuthError> for AppError {
    open spec fn obeys_from_spec() -> bool {
        true
    }

    open spec fn from_spec(v: AuthError) -> AppError {
        AppError::Auth(v)
    }
}

} // verus!
