//! Signup: validate the two inputs, refuse a taken address, otherwise hand
//! the new record to the user directory.

use vstd::prelude::*;
use crate::data_stores::{UserStore, UserStoreError};
use crate::email::{is_valid_email, lower_of, Email};
use crate::error::AuthAPIError;
use crate::password::{password_long_enough, Password};
use crate::user::User;

verus! {

pub struct SignupRequest {
    pub email: String,
    pub password: String,
    pub requires_2fa: bool,
}

#[derive(Debug, PartialEq, Eq)]
pub struct SignupResponse {
    pub message: String,
}

/// The three ways a signup request can go, decided by the inputs and the
/// directory state alone.
#[derive(Debug, PartialEq, Eq, Structural)]
pub enum SignupDecision {
    Invalid,
    Conflict,
    Create,
}

/// What signup decides for given inputs against a directory state.
pub open spec fn signup_decision(
    users: Map<Seq<char>, (Seq<char>, Seq<char>, bool)>,
    email_raw: Seq<char>,
    password_raw: Seq<char>,
) -> SignupDecision {
    if !is_valid_email(lower_of(email_raw)) || !password_long_enough(password_raw) {
        SignupDecision::Invalid
    } else if users.contains_key(lower_of(email_raw)) {
        SignupDecision::Conflict
    } else {
        SignupDecision::Create
    }
}

/// Registers a new principal.  Malformed input is rejected before the
/// directory is touched; a taken address is refused; a directory fault is
/// surfaced as an unexpected error with the directory unchanged.
pub fn signup<U: UserStore>(user_store: &mut U, request: SignupRequest) -> (r: Result<
    SignupResponse,
    AuthAPIError,
>)
    ensures
        ({
            let d = signup_decision(old(user_store).users(), request.email@, request.password@);
            let e = lower_of(request.email@);
            &&& (d == SignupDecision::Invalid ==> r == Err::<SignupResponse, AuthAPIError>(
                AuthAPIError::InvalidCredentials,
            ) && final(user_store).users() == old(user_store).users())
            &&& (d == SignupDecision::Conflict ==> (r == Err::<SignupResponse, AuthAPIError>(
                AuthAPIError::UserAlreadyExists,
            ) || r matches Err(AuthAPIError::UnexpectedError(_)))
                && final(user_store).users() == old(user_store).users())
            &&& (d == SignupDecision::Create ==> (r matches Ok(resp) && resp.message@
                == "User created successfully!"@
                && final(user_store).users() == old(user_store).users().insert(
                e,
                (e, request.password@, request.requires_2fa),
            )) || (r matches Err(AuthAPIError::UnexpectedError(_))
                && final(user_store).users() == old(user_store).users()))
            &&& (r is Ok ==> d == SignupDecision::Create)
            &&& (r == Err::<SignupResponse, AuthAPIError>(AuthAPIError::InvalidCredentials) ==> d
                == SignupDecision::Invalid)
            &&& (r == Err::<SignupResponse, AuthAPIError>(AuthAPIError::UserAlreadyExists) ==> d
                == SignupDecision::Conflict)
            &&& (r matches Err(e2) ==> (e2 == AuthAPIError::InvalidCredentials || e2
                == AuthAPIError::UserAlreadyExists || e2 matches AuthAPIError::UnexpectedError(_)))
        }),
{
    let email = match Email::parse(request.email) {
        Ok(e) => e,
        Err(_) => {
            return Err(AuthAPIError::InvalidCredentials);
        },
    };
    let password = match Password::parse(request.password) {
        Ok(p) => p,
        Err(_) => {
            return Err(AuthAPIError::InvalidCredentials);
        },
    };
    let user = User { email, password, requires_2fa: request.requires_2fa };

    match user_store.get_user(&user.email) {
        Ok(_) => {
            return Err(AuthAPIError::UserAlreadyExists);
        },
        Err(UserStoreError::UserNotFound) => {},
        Err(_) => {
            return Err(
                AuthAPIError::UnexpectedError(String::from_str("user directory lookup failed")),
            );
        },
    }

    if user_store.add_user(user).is_err() {
        return Err(AuthAPIError::UnexpectedError(String::from_str("user directory insert failed")));
    }

    Ok(SignupResponse { message: String::from_str("User created successfully!") })
}

} // verus!
