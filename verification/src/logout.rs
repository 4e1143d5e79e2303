//! Logout: validate the session cookie's token, then push it onto the
//! revocation list so no later call can use it.
//!
//! A missing cookie is a client error of its own, distinct from an invalid
//! token; the boundary clears the cookie only when this succeeds.

use vstd::prelude::*;
use crate::data_stores::BannedTokenStore;
use crate::error::AuthAPIError;
use crate::session::{spec_session_subject, validate_token};
use crate::token::TokenService;

verus! {

/// Validates the cookie's token and revokes it.
pub fn logout<B: BannedTokenStore>(
    token_service: &TokenService,
    banned_token_store: &mut B,
    cookie_token: Option<&str>,
    now: u64,
) -> (r: Result<(), AuthAPIError>)
    ensures
        cookie_token is None ==> r == Err::<(), AuthAPIError>(AuthAPIError::MissingToken)
            && final(banned_token_store).banned() == old(banned_token_store).banned(),
        cookie_token matches Some(t) ==> ({
            let subject = spec_session_subject(
                token_service.spec_secret(),
                old(banned_token_store).banned(),
                t@,
                now,
            );
            &&& (subject is None ==> r == Err::<(), AuthAPIError>(AuthAPIError::InvalidToken))
            &&& (r is Ok ==> subject is Some
                && final(banned_token_store).banned() == old(banned_token_store).banned().insert(t@))
            &&& (r is Err ==> final(banned_token_store).banned() == old(banned_token_store).banned())
            &&& (r matches Err(e) ==> e == AuthAPIError::InvalidToken || e matches
                AuthAPIError::UnexpectedError(_))
            &&& (r matches Err(AuthAPIError::UnexpectedError(_)) ==> subject is Some)
        }),
{
    let token = match cookie_token {
        Some(value) => value,
        None => {
            return Err(AuthAPIError::MissingToken);
        },
    };
    match validate_token(token_service, banned_token_store, token, now) {
        Ok(_) => {},
        Err(_) => {
            return Err(AuthAPIError::InvalidToken);
        },
    };
    match banned_token_store.store_token(String::from_str(token)) {
        Ok(_) => Ok(()),
        Err(_) => Err(
            AuthAPIError::UnexpectedError(String::from_str("failed to store revoked token")),
        ),
    }
}

} // verus!
