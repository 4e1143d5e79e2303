//! The storage interfaces the orchestrators are written against.
//!
//! Each store is one interface with several implementations: the in-memory
//! ones in this crate are verified against these contracts; out-of-process
//! backings implement the same interface at the boundary.  A method may
//! always report an unexpected failure — the contracts say what holds of
//! every outcome, and promise nothing a faulty backing could not keep.

use vstd::prelude::*;
use crate::email::Email;
use crate::password::Password;
use crate::two_fa::{LoginAttemptId, TwoFACode};
use crate::user::User;

verus! {

#[derive(Debug, PartialEq, Eq, Structural)]
pub enum UserStoreError {
    UserAlreadyExists,
    UserNotFound,
    InvalidCredentials,
    UnexpectedError,
}

#[derive(Debug, PartialEq, Eq, Structural)]
pub enum BannedTokenStoreError {
    UnexpectedError,
}

#[derive(Debug, PartialEq, Eq, Structural)]
pub enum TwoFACodeStoreError {
    LoginAttemptIdNotFound,
    UnexpectedError,
}

#[derive(Debug, PartialEq, Eq, Structural)]
pub enum EmailClientError {
    SendFailed,
}

/// The user directory: address to (address, secret, second-factor flag).
///
/// The directory is an external collaborator; nothing here promises that a
/// call succeeds, only what each answer means.
pub trait UserStore {
    spec fn users(&self) -> Map<Seq<char>, (Seq<char>, Seq<char>, bool)>;

    fn add_user(&mut self, user: User) -> (r: Result<(), UserStoreError>)
        ensures
            r is Ok ==> final(self).users() == old(self).users().insert(user.email@, user@),
            r is Err ==> final(self).users() == old(self).users(),
            r == Err::<(), UserStoreError>(UserStoreError::UserAlreadyExists) ==> old(
                self,
            ).users().contains_key(user.email@),
    ;

    fn get_user(&self, email: &Email) -> (r: Result<User, UserStoreError>)
        ensures
            r matches Ok(u) ==> self.users().contains_key(email@) && u@ == self.users()[email@],
            r == Err::<User, UserStoreError>(UserStoreError::UserNotFound)
                ==> !self.users().contains_key(email@),
    ;

    fn validate_user(&self, email: &Email, password: &Password) -> (r: Result<(), UserStoreError>)
        ensures
            r is Ok ==> self.users().contains_key(email@) && self.users()[email@].1 == password@,
            r == Err::<(), UserStoreError>(UserStoreError::UserNotFound)
                ==> !self.users().contains_key(email@),
            r == Err::<(), UserStoreError>(UserStoreError::InvalidCredentials)
                ==> self.users().contains_key(email@) && self.users()[email@].1 != password@,
    ;
}

/// The revocation list consulted by the session validator.
pub trait BannedTokenStore {
    spec fn banned(&self) -> Set<Seq<char>>;

    fn store_token(&mut self, token: String) -> (r: Result<bool, bool>)
        ensures
            r is Ok ==> final(self).banned() == old(self).banned().insert(token@),
            r is Err ==> final(self).banned() == old(self).banned(),
    ;

    fn token_exists(&self, token: &str) -> (r: Result<bool, bool>)
        ensures
            r matches Ok(b) ==> b == self.banned().contains(token@),
    ;
}

/// The outstanding second-factor challenges, one per principal.
pub trait TwoFACodeStore {
    spec fn codes(&self) -> Map<Seq<char>, (Seq<char>, Seq<char>)>;

    fn add_code(&mut self, email: Email, login_attempt_id: LoginAttemptId, code: TwoFACode) -> (r:
        Result<(), TwoFACodeStoreError>)
        ensures
            r is Ok ==> final(self).codes() == old(self).codes().insert(
                email@,
                (login_attempt_id@, code@),
            ),
            r is Err ==> final(self).codes() == old(self).codes(),
    ;

    fn remove_code(&mut self, email: &Email) -> (r: Result<(), TwoFACodeStoreError>)
        ensures
            r is Ok ==> final(self).codes() == old(self).codes().remove(email@),
            r is Err ==> final(self).codes() == old(self).codes(),
    ;

    fn get_code(&self, email: &Email) -> (r: Result<(LoginAttemptId, TwoFACode), TwoFACodeStoreError
    >)
        ensures
            r matches Ok(p) ==> self.codes().contains_key(email@) && p.0@
                == self.codes()[email@].0 && p.1@ == self.codes()[email@].1,
            r == Err::<(LoginAttemptId, TwoFACode), TwoFACodeStoreError>(
                TwoFACodeStoreError::LoginAttemptIdNotFound,
            ) ==> !self.codes().contains_key(email@),
    ;
}

/// The outbound message transport: a sink, owed nothing.
pub trait EmailClient {
    fn send_email(&self, recipient: &Email, subject: &str, content: &str) -> (r: Result<
        (),
        EmailClientError,
    >);
}

} // verus!
