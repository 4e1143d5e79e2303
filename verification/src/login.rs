//! Login: check credentials against the user directory, then either grant
//! a session outright or issue a second-factor challenge.
//!
//! Every credential failure — unknown address, wrong secret, directory
//! fault — collapses into the one same answer, so a caller can never tell
//! which it was.  When a second factor is required the challenge is
//! persisted first and the code dispatched after; a dispatch failure is
//! surfaced, with the challenge left in place, and never retried here.

use vstd::prelude::*;
use crate::data_stores::{EmailClient, TwoFACodeStore, UserStore};
use crate::email::{is_valid_email, lower_of, Email};
use crate::error::AuthAPIError;
use crate::password::{password_long_enough, Password};
use crate::token::{spec_token, TokenService, TOKEN_TTL_SECONDS};
use crate::two_fa::{valid_attempt_id, valid_two_fa_code, LoginAttemptId, TwoFACode};

verus! {

pub struct LoginRequest {
    pub email: String,
    pub password: String,
}

/// Sent back when a second factor is required: a message and the attempt
/// identifier — never the code itself.
#[derive(Debug)]
pub struct TwoFactorAuthResponse {
    pub message: String,
    pub login_attempt_id: String,
}

/// The two success shapes of a login.
#[derive(Debug)]
pub enum LoginResponse {
    RegularAuth,
    TwoFactorAuth(TwoFactorAuthResponse),
}

/// The four ways a login request can go, decided by the inputs and the
/// directory state alone.
#[derive(Debug, PartialEq, Eq, Structural)]
pub enum LoginDecision {
    Invalid,
    BadCredentials,
    TwoFactor,
    Direct,
}

/// What login decides for given inputs against a directory state.
pub open spec fn login_decision(
    users: Map<Seq<char>, (Seq<char>, Seq<char>, bool)>,
    email_raw: Seq<char>,
    password_raw: Seq<char>,
) -> LoginDecision {
    if !password_long_enough(password_raw) || !is_valid_email(lower_of(email_raw)) {
        LoginDecision::Invalid
    } else if !users.contains_key(lower_of(email_raw)) || users[lower_of(email_raw)].1
        != password_raw {
        LoginDecision::BadCredentials
    } else if users[lower_of(email_raw)].2 {
        LoginDecision::TwoFactor
    } else {
        LoginDecision::Direct
    }
}

/// Issues the challenge path: persist a fresh challenge, then dispatch the
/// code; answer with the attempt identifier only.
fn handle_2fa<C: TwoFACodeStore, E: EmailClient>(
    email: &Email,
    two_fa_code_store: &mut C,
    email_client: &E,
) -> (r: Result<(LoginResponse, Option<String>), AuthAPIError>)
    ensures
        r matches Ok((resp, tok)) ==> tok is None && (resp matches LoginResponse::TwoFactorAuth(t)
            && t.message@ == "2FA required"@ && valid_attempt_id(t.login_attempt_id@)
            && (exists|c: Seq<char>|
            valid_two_fa_code(c) && final(two_fa_code_store).codes() == old(two_fa_code_store).codes().insert(email@, (t.login_attempt_id@, c)))),
        r matches Err(e) ==> e matches AuthAPIError::UnexpectedError(_) && (final(two_fa_code_store).codes() == old(two_fa_code_store).codes() || (exists|a: Seq<char>, c: Seq<char>|
            valid_attempt_id(a) && valid_two_fa_code(c) && final(two_fa_code_store).codes() == old(two_fa_code_store).codes().insert(email@, (a, c)))),
{
    let login_attempt_id = LoginAttemptId::default();
    let two_fa_code = TwoFACode::default();

    if two_fa_code_store.add_code(
        email.duplicate(),
        login_attempt_id.duplicate(),
        two_fa_code.duplicate(),
    ).is_err() {
        return Err(AuthAPIError::UnexpectedError(String::from_str("failed to persist challenge")));
    }

    if email_client.send_email(email, "2FA Code", two_fa_code.as_ref()).is_err() {
        return Err(
            AuthAPIError::UnexpectedError(String::from_str("failed to dispatch challenge code")),
        );
    }

    let response = LoginResponse::TwoFactorAuth(
        TwoFactorAuthResponse {
            message: String::from_str("2FA required"),
            login_attempt_id: String::from_str(login_attempt_id.as_ref()),
        },
    );
    Ok((response, None))
}

/// Grants a session outright: mint the token that the boundary sets as the
/// session cookie.
fn handle_no_2fa(email: &Email, token_service: &TokenService, now: u64) -> (r: Result<
    (LoginResponse, Option<String>),
    AuthAPIError,
>)
    requires
        now + TOKEN_TTL_SECONDS <= u64::MAX,
    ensures
        r is Ok,
        r matches Ok((resp, tok)) ==> resp is RegularAuth && (tok matches Some(t) && t@
            == spec_token(
            token_service.spec_secret(),
            email@,
            (now + TOKEN_TTL_SECONDS) as u64,
        )),
{
    let token = token_service.mint(email, now);
    Ok((LoginResponse::RegularAuth, Some(token)))
}

/// Checks the credentials and branches on the principal's second-factor
/// flag; the returned string, when present, is the session token to set.
pub fn login<U: UserStore, C: TwoFACodeStore, E: EmailClient>(
    user_store: &U,
    two_fa_code_store: &mut C,
    email_client: &E,
    token_service: &TokenService,
    request: LoginRequest,
    now: u64,
) -> (r: Result<(LoginResponse, Option<String>), AuthAPIError>)
    requires
        now + TOKEN_TTL_SECONDS <= u64::MAX,
    ensures
        ({
            let d = login_decision(user_store.users(), request.email@, request.password@);
            let e = lower_of(request.email@);
            let unchanged = final(two_fa_code_store).codes() == old(two_fa_code_store).codes();
            &&& (d == LoginDecision::Invalid ==> r == Err::<
                (LoginResponse, Option<String>),
                AuthAPIError,
            >(AuthAPIError::InvalidCredentials) && unchanged)
            &&& (d == LoginDecision::BadCredentials ==> r == Err::<
                (LoginResponse, Option<String>),
                AuthAPIError,
            >(AuthAPIError::IncorrectCredentials) && unchanged)
            &&& (d == LoginDecision::Direct ==> (r matches Ok((resp, tok)) && resp is RegularAuth
                && (tok matches Some(t) && t@ == spec_token(
                token_service.spec_secret(),
                e,
                (now + TOKEN_TTL_SECONDS) as u64,
            )) && unchanged) || (r == Err::<(LoginResponse, Option<String>), AuthAPIError>(
                AuthAPIError::IncorrectCredentials,
            ) && unchanged))
            &&& (d == LoginDecision::TwoFactor ==> (r matches Ok((resp, tok)) && tok is None && (
            resp matches LoginResponse::TwoFactorAuth(t) && t.message@ == "2FA required"@
                && valid_attempt_id(t.login_attempt_id@) && (exists|c: Seq<char>|
                valid_two_fa_code(c) && final(two_fa_code_store).codes() == old(two_fa_code_store).codes().insert(e, (t.login_attempt_id@, c))))) || (r == Err::<
                (LoginResponse, Option<String>),
                AuthAPIError,
            >(AuthAPIError::IncorrectCredentials) && unchanged) || (r matches Err(
                AuthAPIError::UnexpectedError(_),
            ) && (unchanged || (exists|a: Seq<char>, c: Seq<char>|
                valid_attempt_id(a) && valid_two_fa_code(c) && final(two_fa_code_store).codes()
                    == old(two_fa_code_store).codes().insert(e, (a, c))))))
            &&& (r matches Ok((resp, tok)) ==> ((resp is RegularAuth && d == LoginDecision::Direct)
                || (resp is TwoFactorAuth && d == LoginDecision::TwoFactor)))
            &&& (r == Err::<(LoginResponse, Option<String>), AuthAPIError>(
                AuthAPIError::InvalidCredentials,
            ) ==> d == LoginDecision::Invalid)
            &&& (r == Err::<(LoginResponse, Option<String>), AuthAPIError>(
                AuthAPIError::IncorrectCredentials,
            ) ==> d != LoginDecision::Invalid)
            &&& (r matches Err(AuthAPIError::UnexpectedError(_)) ==> d == LoginDecision::TwoFactor)
            &&& (r matches Err(e2) ==> (e2 == AuthAPIError::InvalidCredentials || e2
                == AuthAPIError::IncorrectCredentials || e2 matches AuthAPIError::UnexpectedError(
                _,
            )))
        }),
{
    let password = match Password::parse(request.password) {
        Ok(password) => password,
        Err(_) => {
            return Err(AuthAPIError::InvalidCredentials);
        },
    };

    let email = match Email::parse(request.email) {
        Ok(email) => email,
        Err(_) => {
            return Err(AuthAPIError::InvalidCredentials);
        },
    };

    if user_store.validate_user(&email, &password).is_err() {
        return Err(AuthAPIError::IncorrectCredentials);
    }

    let user = match user_store.get_user(&email) {
        Ok(user) => user,
        Err(_) => {
            return Err(AuthAPIError::IncorrectCredentials);
        },
    };

    if user.requires_2fa {
        handle_2fa(&email, two_fa_code_store, email_client)
    } else {
        handle_no_2fa(&email, token_service, now)
    }
}

/// Uniform failure: an unknown address and a known address with the wrong
/// secret fall into the same decision, and that decision has exactly one
/// externally visible outcome — one status, one body, no hint which of the
/// two causes it was.
pub proof fn lemma_uniform_failure(
    users: Map<Seq<char>, (Seq<char>, Seq<char>, bool)>,
    e1: Seq<char>,
    p1: Seq<char>,
    e2: Seq<char>,
    p2: Seq<char>,
)
    ensures
        is_valid_email(lower_of(e1)) && password_long_enough(p1)
            && !users.contains_key(lower_of(e1)) ==> login_decision(users, e1, p1)
            == LoginDecision::BadCredentials,
        is_valid_email(lower_of(e2)) && password_long_enough(p2)
            && users.contains_key(lower_of(e2)) && users[lower_of(e2)].1 != p2 ==> login_decision(
            users,
            e2,
            p2,
        ) == LoginDecision::BadCredentials,
        AuthAPIError::IncorrectCredentials.spec_status_code() == 401,
        AuthAPIError::IncorrectCredentials.spec_message() == "Incorrect credentials"@,
{
}

} // verus!
