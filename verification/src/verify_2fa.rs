//! Challenge verification: the separate call that turns an issued
//! second-factor challenge into a session.
//!
//! The submitted tuple must equal the stored one exactly — identifier AND
//! code; an absent challenge and a wrong tuple are answered identically, so
//! a caller cannot tell expiry from never-existed.  A successful match
//! deletes the challenge before the session token is minted: a challenge
//! is single-use.

use vstd::prelude::*;
use crate::data_stores::{TwoFACodeStore, TwoFACodeStoreError};
use crate::email::{is_valid_email, lower_of, Email};
use crate::error::AuthAPIError;
use crate::strutil::str_eq;
use crate::token::{spec_token, TokenService, TOKEN_TTL_SECONDS};
use crate::two_fa::{valid_attempt_id, valid_two_fa_code, LoginAttemptId, TwoFACode};

verus! {

pub struct Verify2FARequest {
    pub email: String,
    pub login_attempt_id: String,
    pub two_fa_code: String,
}

/// The three ways a verification request can go, decided by the inputs and
/// the challenge-store state alone.
#[derive(Debug, PartialEq, Eq, Structural)]
pub enum Verify2FADecision {
    Invalid,
    BadChallenge,
    Grant,
}

/// What challenge verification decides for given inputs against a store
/// state.  An absent challenge and a mismatched tuple land in the same
/// bucket.
pub open spec fn verify_2fa_decision(
    codes: Map<Seq<char>, (Seq<char>, Seq<char>)>,
    email_raw: Seq<char>,
    id_raw: Seq<char>,
    code_raw: Seq<char>,
) -> Verify2FADecision {
    if !is_valid_email(lower_of(email_raw)) || !valid_attempt_id(id_raw) || !valid_two_fa_code(
        code_raw,
    ) {
        Verify2FADecision::Invalid
    } else if !codes.contains_key(lower_of(email_raw)) {
        Verify2FADecision::BadChallenge
    } else if codes[lower_of(email_raw)] != (id_raw, code_raw) {
        Verify2FADecision::BadChallenge
    } else {
        Verify2FADecision::Grant
    }
}

/// Verifies a submitted challenge; on success the challenge is deleted and
/// the returned string is the session token to set.
pub fn verify_2fa<C: TwoFACodeStore>(
    two_fa_code_store: &mut C,
    token_service: &TokenService,
    request: Verify2FARequest,
    now: u64,
) -> (r: Result<String, AuthAPIError>)
    requires
        now + TOKEN_TTL_SECONDS <= u64::MAX,
    ensures
        ({
            let d = verify_2fa_decision(
                old(two_fa_code_store).codes(),
                request.email@,
                request.login_attempt_id@,
                request.two_fa_code@,
            );
            let e = lower_of(request.email@);
            let unchanged = final(two_fa_code_store).codes() == old(two_fa_code_store).codes();
            &&& (d == Verify2FADecision::Invalid ==> r == Err::<String, AuthAPIError>(
                AuthAPIError::InvalidCredentials,
            ) && unchanged)
            &&& (d == Verify2FADecision::BadChallenge ==> r == Err::<String, AuthAPIError>(
                AuthAPIError::IncorrectCredentials,
            ) && unchanged)
            &&& (d == Verify2FADecision::Grant ==> (r matches Ok(t) && t@ == spec_token(
                token_service.spec_secret(),
                e,
                (now + TOKEN_TTL_SECONDS) as u64,
            ) && final(two_fa_code_store).codes() == old(two_fa_code_store).codes().remove(e)) || (r
                == Err::<String, AuthAPIError>(AuthAPIError::IncorrectCredentials) && unchanged)
                || (r matches Err(AuthAPIError::UnexpectedError(_)) && unchanged))
            &&& (r is Ok ==> d == Verify2FADecision::Grant)
            &&& (r == Err::<String, AuthAPIError>(AuthAPIError::InvalidCredentials) ==> d
                == Verify2FADecision::Invalid)
            &&& (r == Err::<String, AuthAPIError>(AuthAPIError::IncorrectCredentials) ==> d
                != Verify2FADecision::Invalid)
            &&& (r matches Err(AuthAPIError::UnexpectedError(_)) ==> d == Verify2FADecision::Grant)
            &&& (r matches Err(e2) ==> (e2 == AuthAPIError::InvalidCredentials || e2
                == AuthAPIError::IncorrectCredentials || e2 matches AuthAPIError::UnexpectedError(
                _,
            )))
        }),
{
    let email = match Email::parse(request.email) {
        Ok(email) => email,
        Err(_) => {
            return Err(AuthAPIError::InvalidCredentials);
        },
    };

    let login_attempt_id = match LoginAttemptId::parse(request.login_attempt_id) {
        Ok(login_attempt_id) => login_attempt_id,
        Err(_) => {
            return Err(AuthAPIError::InvalidCredentials);
        },
    };

    let two_fa_code = match TwoFACode::parse(request.two_fa_code) {
        Ok(two_fa_code) => two_fa_code,
        Err(_) => {
            return Err(AuthAPIError::InvalidCredentials);
        },
    };

    let code_tuple = match two_fa_code_store.get_code(&email) {
        Ok(pair) => pair,
        Err(_) => {
            return Err(AuthAPIError::IncorrectCredentials);
        },
    };

    if !str_eq(code_tuple.0.as_ref(), login_attempt_id.as_ref()) || !str_eq(
        code_tuple.1.as_ref(),
        two_fa_code.as_ref(),
    ) {
        return Err(AuthAPIError::IncorrectCredentials);
    }

    if two_fa_code_store.remove_code(&email).is_err() {
        return Err(AuthAPIError::UnexpectedError(String::from_str("failed to delete challenge")));
    }

    Ok(token_service.mint(&email, now))
}

/// Challenge single-use: once a successful verification has deleted the
/// challenge, the very same submission is no longer granted.
pub proof fn lemma_challenge_single_use(
    codes: Map<Seq<char>, (Seq<char>, Seq<char>)>,
    email_raw: Seq<char>,
    id_raw: Seq<char>,
    code_raw: Seq<char>,
)
    ensures
        verify_2fa_decision(codes.remove(lower_of(email_raw)), email_raw, id_raw, code_raw)
            != Verify2FADecision::Grant,
{
}

/// Challenge overwrite: issuing a new challenge for a principal invalidates
/// the old one — the earlier tuple is no longer granted.
pub proof fn lemma_challenge_overwrite(
    codes: Map<Seq<char>, (Seq<char>, Seq<char>)>,
    email_raw: Seq<char>,
    old_id: Seq<char>,
    old_code: Seq<char>,
    new_id: Seq<char>,
    new_code: Seq<char>,
)
    ensures
        (old_id, old_code) != (new_id, new_code) ==> verify_2fa_decision(
            codes.insert(lower_of(email_raw), (new_id, new_code)),
            email_raw,
            old_id,
            old_code,
        ) != Verify2FADecision::Grant,
{
}

} // verus!
