//! Login: the credentials check that runs before the player is looked up,
//! and the whole decision against the player found.

use vstd::prelude::*;

use crate::database::models::Player;
use crate::errors::auth::AuthError;
use crate::password::{bcrypt_check, bcrypt_readable, check_password, hashes_password};

verus! {

/// The body of a login request.
#[derive(Debug, Clone, PartialEq, Eq)]
pub struct AuthPayload {
    pub username: String,
    pub password: String,
}

/// Why a login did not succeed.
#[derive(Debug, Clone, Copy, PartialEq, Eq, Structural)]
pub enum LoginError {
    /// The request is refused with this error.
    Refused(AuthError),
    /// The player's stored hash cannot be read, so no password can match it.
    UnreadableHash,
}

/// Both the username and the password are non-empty.
pub open spec fn credentials_present(payload: AuthPayload) -> bool {
    payload.username@.len() > 0 && payload.password@.len() > 0
}

/// The outcome of a login, given the answer of the password check against
/// the player's stored hash.
pub open spec fn login_verdict(check: Option<bool>, player: Player) -> Result<Player, LoginError> {
    match check {
        Some(true) => Ok(player),
        Some(false) => Err(LoginError::Refused(AuthError::InvalidCredentials)),
        None => Err(LoginError::UnreadableHash),
    }
}

/// The whole decision of a login request against the player found under its
/// username: refused for missing credentials first, then decided by the
/// password check.
pub open spec fn login_decision(payload: AuthPayload, player: Player) -> Result<Player, LoginError> {
    if !credentials_present(payload) {
        Err(LoginError::Refused(AuthError::MissingCredentials))
    } else {
        login_verdict(bcrypt_check(payload.password@, player.hashed_password@), player)
    }
}

/// Refuses a login whose username or password is empty, before any lookup.
pub fn check_credentials(payload: &AuthPayload) -> (r: Result<(), AuthError>)
    ensures
        r == (if credentials_present(*payload) {
            Ok(())
        } else {
            Err(AuthError::MissingCredentials)
        }),
        payload.username@.len() > 0 && payload.password@.len() > 0 ==> r == Ok::<(), AuthError>(()),
        payload.username@.len() == 0 || payload.password@.len() == 0 ==> r == Err::<(), AuthError>(
            AuthError::MissingCredentials,
        ),
{
    if payload.username.as_str().is_empty() || payload.password.as_str().is_empty() {
        Err(AuthError::MissingCredentials)
    } else {
        Ok(())
    }
}

/// Decides a login from the answer of the password check: the player on a
/// match, `InvalidCredentials` on a mismatch.
pub fn password_verdict(check: Option<bool>, player: Player) -> (r: Result<Player, LoginError>)
    ensures
        r == login_verdict(check, player),
{
    match check {
        Some(true) => Ok(player),
        Some(false) => Err(LoginError::Refused(AuthError::InvalidCredentials)),
        None => Err(LoginError::UnreadableHash),
    }
}

/// Decides a login request against the player found under its username:
/// missing credentials are refused first; otherwise the request's password
/// is checked against the player's stored hash.
pub fn authenticate(payload: &AuthPayload, player: Player) -> (r: Result<Player, LoginError>)
    ensures
        r == login_decision(*payload, player),
        r is Ok ==> credentials_present(*payload) && bcrypt_check(
            payload.password@,
            player.hashed_password@,
        ) == Some(true),
{
    match check_credentials(payload) {
        Err(error) => Err(LoginError::Refused(error)),
        Ok(()) => {
            let check = check_password(payload.password.as_str(), player.hashed_password.as_str());
            password_verdict(check, player)
        },
    }
}

/// A player registered with a password logs in with that password, under
/// their own username: the login gives back that player.
pub proof fn registered_password_logs_in(payload: AuthPayload, player: Player)
    requires
        credentials_present(payload),
        player.username@ == payload.username@,
        hashes_password(player.hashed_password@, payload.password@),
    ensures
        login_decision(payload, player) == Ok::<Player, LoginError>(player),
        login_decision(payload, player) matches Ok(q) ==> q.username@ == payload.username@,
{
}

/// Against a hash made at registration, a login with credentials is never
/// left undecided: it gives back the player, or is refused with
/// `InvalidCredentials`.
pub proof fn registered_hash_decides_every_login(payload: AuthPayload, player: Player)
    requires
        credentials_present(payload),
        bcrypt_readable(player.hashed_password@),
    ensures
        login_decision(payload, player) == Ok::<Player, LoginError>(player) || login_decision(
            payload,
            player,
        ) == Err::<Player, LoginError>(LoginError::Refused(AuthError::InvalidCredentials)),
{
    assert(bcrypt_check(payload.password@, player.hashed_password@) is Some);
}

/// A login succeeds only with non-empty credentials whose password matches
/// the stored hash; with credentials it is refused with `InvalidCredentials`
/// exactly where the hash is readable and the password does not match.
pub proof fn login_succeeds_only_on_match(payload: AuthPayload, player: Player)
    ensures
        login_decision(payload, player) is Ok <==> credentials_present(payload) && bcrypt_check(
            payload.password@,
            player.hashed_password@,
        ) == Some(true),
        credentials_present(payload) ==> (login_decision(payload, player) == Err::<
            Player,
            LoginError,
        >(LoginError::Refused(AuthError::InvalidCredentials)) <==> bcrypt_check(
            payload.password@,
            player.hashed_password@,
        ) == Some(false)),
        !credentials_present(payload) ==> login_decision(payload, player) == Err::<
            Player,
            LoginError,
        >(LoginError::Refused(AuthError::MissingCredentials)),
{
}

/// Credentials count as present exactly when both the username and the
/// password have at least one character; their length or content is
/// otherwise of no concern.
pub proof fn credentials_present_means_non_empty(payload: AuthPayload)
    ensures
        credentials_present(payload) <==> (payload.username@.len() > 0
            && payload.password@.len() > 0),
{
}

/// A login with a non-empty username and password whose password matches
/// the stored hash gives back the stored player; one with an empty username
/// or password is refused with `MissingCredentials`, whatever is stored.
pub proof fn login_by_lengths_and_match(payload: AuthPayload, player: Player)
    ensures
        payload.username@.len() > 0 && payload.password@.len() > 0 && bcrypt_check(
            payload.password@,
            player.hashed_password@,
        ) == Some(true) ==> login_decision(payload, player) == Ok::<Player, LoginError>(player),
        payload.username@.len() > 0 && payload.password@.len() > 0 && bcrypt_check(
            payload.password@,
            player.hashed_password@,
        ) == Some(false) ==> login_decision(payload, player) == Err::<Player, LoginError>(
            LoginError::Refused(AuthError::InvalidCredentials),
        ),
        payload.username@.len() == 0 || payload.password@.len() == 0 ==> login_decision(
            payload,
            player,
        ) == Err::<Player, LoginError>(LoginError::Refused(AuthError::MissingCredentials)),
{
}

} // verus!
