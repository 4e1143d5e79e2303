//! The error taxonomy of the service core, and its outward mapping.
//!
//! Validation failures are caught before any store is touched; bad
//! credentials and bad challenges collapse into one uniform answer; token
//! troubles are their own family; everything else is unexpected and carries
//! a cause for the operator's log, never for the caller.

use vstd::prelude::*;

verus! {

/// A malformed input, rejected at construction of a domain value.
#[derive(Debug, PartialEq, Eq, Structural)]
pub enum ValidationError {
    InvalidEmail,
    InvalidPassword,
    InvalidLoginAttemptId,
    InvalidTwoFACode,
}

/// Everything an operation of the core can answer with when it fails.
#[derive(Debug)]
pub enum AuthAPIError {
    UserAlreadyExists,
    InvalidCredentials,
    IncorrectCredentials,
    MissingToken,
    InvalidToken,
    UnexpectedError(String),
}

/// The uniform JSON body shape for a failed request.
#[derive(Debug)]
pub struct ErrorResponse {
    pub error: String,
}

impl AuthAPIError {
    /// The HTTP status class each failure maps to at the boundary.
    pub open spec fn spec_status_code(&self) -> u16 {
        match self {
            AuthAPIError::UserAlreadyExists => 409,
            AuthAPIError::InvalidCredentials => 400,
            AuthAPIError::IncorrectCredentials => 401,
            AuthAPIError::MissingToken => 400,
            AuthAPIError::InvalidToken => 401,
            AuthAPIError::UnexpectedError(_) => 500,
        }
    }

    /// The user-facing message; internals of an unexpected error never leak.
    pub open spec fn spec_message(&self) -> Seq<char> {
        match self {
            AuthAPIError::UserAlreadyExists => "User already exists"@,
            AuthAPIError::InvalidCredentials => "Invalid credentials"@,
            AuthAPIError::IncorrectCredentials => "Incorrect credentials"@,
            AuthAPIError::MissingToken => "Missing auth token"@,
            AuthAPIError::InvalidToken => "Invalid auth token"@,
            AuthAPIError::UnexpectedError(_) => "Unexpected error"@,
        }
    }

    pub fn status_code(&self) -> (r: u16)
        ensures
            r == self.spec_status_code(),
    {
        match self {
            AuthAPIError::UserAlreadyExists => 409,
            AuthAPIError::InvalidCredentials => 400,
            AuthAPIError::IncorrectCredentials => 401,
            AuthAPIError::MissingToken => 400,
            AuthAPIError::InvalidToken => 401,
            AuthAPIError::UnexpectedError(_) => 500,
        }
    }

    pub fn message(&self) -> (r: String)
        ensures
            r@ == self.spec_message(),
    {
        match self {
            AuthAPIError::UserAlreadyExists => String::from_str("User already exists"),
            AuthAPIError::InvalidCredentials => String::from_str("Invalid credentials"),
            AuthAPIError::IncorrectCredentials => String::from_str("Incorrect credentials"),
            AuthAPIError::MissingToken => String::from_str("Missing auth token"),
            AuthAPIError::InvalidToken => String::from_str("Invalid auth token"),
            AuthAPIError::UnexpectedError(_) => String::from_str("Unexpected error"),
        }
    }

    /// The body the boundary serializes for this failure.
    pub fn error_response(&self) -> (r: ErrorResponse)
        ensures
            r.error@ == self.spec_message(),
    {
        ErrorResponse { error: self.message() }
    }
}

/// The line that frames an error report in the operator's log.
pub open spec fn report_separator() -> Seq<char> {
    "\n-----------------------------------------------------------------------------------\n"@
}

/// The full report `log_error_chain` renders for an error.
pub open spec fn spec_error_report(e: AuthAPIError) -> Seq<char> {
    report_separator() + e.spec_message() + (match e {
        AuthAPIError::UnexpectedError(cause) => "\nCaused by:\n\n"@ + cause@,
        _ => Seq::<char>::empty(),
    }) + report_separator()
}

/// Renders an error and its cause chain between two separator lines, ready
/// for the boundary to hand to its logger.
pub fn log_error_chain(e: &AuthAPIError) -> (r: String)
    ensures
        r@ == spec_error_report(*e),
{
    let separator =
        "\n-----------------------------------------------------------------------------------\n";
    let mut report = String::from_str(separator);
    let msg = e.message();
    report.append(msg.as_str());
    match e {
        AuthAPIError::UnexpectedError(cause) => {
            report.append("\nCaused by:\n\n");
            report.append(cause.as_str());
        },
        _ => {},
    }
    report.append(separator);
    report
}

} // verus!
