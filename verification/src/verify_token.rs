//! The service-to-service token check: a raw token in, yes or no out.

use vstd::prelude::*;
use crate::data_stores::BannedTokenStore;
use crate::error::AuthAPIError;
use crate::session::{spec_session_subject, validate_token};
use crate::token::TokenService;

verus! {

/// The body of a verification request: the raw token itself, not a cookie.
pub struct TokenToBeVerified {
    pub token: String,
}

/// Accepts exactly the tokens the session validator accepts.
pub fn verify_token<B: BannedTokenStore>(
    token_service: &TokenService,
    banned_token_store: &B,
    auth_token: TokenToBeVerified,
    now: u64,
) -> (r: Result<(), AuthAPIError>)
    ensures
        r is Ok ==> spec_session_subject(
            token_service.spec_secret(),
            banned_token_store.banned(),
            auth_token.token@,
            now,
        ) is Some,
        spec_session_subject(
            token_service.spec_secret(),
            banned_token_store.banned(),
            auth_token.token@,
            now,
        ) is None ==> r == Err::<(), AuthAPIError>(AuthAPIError::InvalidToken),
        r matches Err(e) ==> e == AuthAPIError::InvalidToken,
{
    match validate_token(token_service, banned_token_store, auth_token.token.as_str(), now) {
        Ok(_) => Ok(()),
        Err(_) => Err(AuthAPIError::InvalidToken),
    }
}

} // verus!
