//! Errors that the server answers with.

pub mod auth;
pub mod player;

use vstd::prelude::*;

use crate::errors::auth::{auth_error_answer, AuthError};
use crate::errors::player::{player_error_answer, PlayerError};
use vstd::std_specs::convert::FromSpec;

use crate::json::{json_object_text, json_plain, json_single_string_field};

verus! {

/// Every error that a request handler can answer with.
#[derive(Debug, Clone, Copy, PartialEq, Eq, Structural)]
pub enum AppError {
    Auth(AuthError),
    Player(PlayerError),
}

/// The answer to an error as plain values: the HTTP status code and the
/// JSON body text.
#[derive(Debug, Clone, PartialEq, Eq)]
pub struct ErrorResponse {
    pub status: u16,
    pub body: String,
}

/// The HTTP status and the message that answer an `AppError`.
pub open spec fn app_error_answer(e: AppError) -> (u16, &'static str) {
    match e {
        AppError::Auth(a) => auth_error_answer(a),
        AppError::Player(p) => player_error_answer(p),
    }
}

/// The JSON body `{"error":"<message>"}` for a message that needs no escape.
pub open spec fn error_body(message: Seq<char>) -> Seq<char> {
    seq!['{', '"', 'e', 'r', 'r', 'o', 'r', '"', ':', '"'] + message + seq!['"', '}']
}

/// The key of the single field of an error body.
pub const ERROR_FIELD: &'static str = "error";

impl AppError {
    /// The answer to this error: its status, and a JSON object whose field
    /// `error` holds its message.
    pub fn into_response(self) -> (res: ErrorResponse)
        ensures
            res.status == app_error_answer(self).0,
            res.body@ == json_object_text(ERROR_FIELD@, app_error_answer(self).1@),
            res.body@ == error_body(app_error_answer(self).1@),
    {
        let (status, message): (u16, &'static str) = match self {
            AppError::Auth(auth_error) => auth_error.into(),
            AppError::Player(player_error) => player_error.into(),
        };
        proof {
            reveal_strlit("error");
            reveal_strlit("Missing credentials");
            reveal_strlit("Invalid credentials");
            reveal_strlit("Username already in use");
            assert(json_plain(ERROR_FIELD@));
            assert(json_plain(message@));
        }
        let body = json_single_string_field(ERROR_FIELD, message);
        ErrorResponse { status, body }
    }
}

/// Every error is answered with a client error status (4xx).
pub proof fn every_answer_is_a_client_error(e: AppError)
    ensures
        400 <= app_error_answer(e).0 < 500,
{
}

/// Distinct errors are answered with distinct statuses, so a client can
/// tell them apart by the status alone.
pub proof fn distinct_errors_distinct_statuses(e1: AppError, e2: AppError)
    requires
        e1 != e2,
    ensures
        app_error_answer(e1).0 != app_error_answer(e2).0,
{
}

/// Converting an error into an `AppError` keeps its answer: the status and
/// message of the converted error are those that the error converts to.
pub proof fn conversion_keeps_the_answer(a: AuthError, p: PlayerError)
    ensures
        app_error_answer(<AppError as FromSpec<AuthError>>::from_spec(a)) == <(
            u16,
            &'static str,
        ) as FromSpec<AuthError>>::from_spec(a),
        app_error_answer(<AppError as FromSpec<PlayerError>>::from_spec(p)) == <(
            u16,
            &'static str,
        ) as FromSpec<PlayerError>>::from_spec(p),
{
}

} // verus!
