//! The session validator: what every protected call runs a bearer token
//! through before trusting it.
//!
//! A token passes only if its signature and expiry check out *and* it is
//! absent from the revocation list — revocation is a superset check.  When
//! the revocation lookup itself fails, the validator fails closed and
//! rejects the token.

use vstd::prelude::*;
use crate::data_stores::BannedTokenStore;
use crate::error::AuthAPIError;
use crate::token::{spec_validate, TokenService};

verus! {

/// The subject a raw token proves at clock `now`, given the revocation
/// list: `None` when the token is malformed, forged, expired or revoked.
pub open spec fn spec_session_subject(
    secret: Seq<char>,
    banned: Set<Seq<char>>,
    raw: Seq<char>,
    now: u64,
) -> Option<Seq<char>> {
    match spec_validate(secret, raw, now) {
        Ok(subject) => if banned.contains(raw) {
            None
        } else {
            Some(subject)
        },
        Err(_) => None,
    }
}

/// Checks signature and expiry, then consults the revocation list; returns
/// the token's subject when all three pass.  A failing revocation lookup
/// rejects the token (fail closed).
pub fn validate_token<B: BannedTokenStore>(
    token_service: &TokenService,
    banned_token_store: &B,
    token: &str,
    now: u64,
) -> (r: Result<String, AuthAPIError>)
    ensures
        r matches Ok(s) ==> spec_session_subject(
            token_service.spec_secret(),
            banned_token_store.banned(),
            token@,
            now,
        ) == Some(s@),
        spec_session_subject(
            token_service.spec_secret(),
            banned_token_store.banned(),
            token@,
            now,
        ) is None ==> r == Err::<String, AuthAPIError>(AuthAPIError::InvalidToken),
        r matches Err(e) ==> e == AuthAPIError::InvalidToken,
{
    let subject = match token_service.validate(token, now) {
        Ok(s) => s,
        Err(_) => {
            return Err(AuthAPIError::InvalidToken);
        },
    };
    match banned_token_store.token_exists(token) {
        Ok(false) => Ok(subject),
        Ok(true) => Err(AuthAPIError::InvalidToken),
        Err(_) => Err(AuthAPIError::InvalidToken),
    }
}

} // verus!
