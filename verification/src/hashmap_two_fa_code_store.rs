//! The single-process challenge store, for deployments and tests that need
//! no shared backing.  Expiry is left to the process lifetime here; the
//! shared-store variant enforces the challenge window itself.

use vstd::prelude::*;
use crate::data_stores::{TwoFACodeStore, TwoFACodeStoreError};
use crate::email::Email;
use crate::strmap::StrMap;
use crate::two_fa::{LoginAttemptId, TwoFACode};

verus! {

/// An in-memory map from principal to its one outstanding challenge.
pub struct HashmapTwoFACodeStore {
    codes: StrMap<(LoginAttemptId, TwoFACode)>,
}

impl HashmapTwoFACodeStore {
    pub fn new() -> (r: HashmapTwoFACodeStore)
        ensures
            r.codes() == Map::<Seq<char>, (Seq<char>, Seq<char>)>::empty(),
    {
        HashmapTwoFACodeStore { codes: StrMap::new() }
    }
}

impl Default for HashmapTwoFACodeStore {
    fn default() -> (r: HashmapTwoFACodeStore)
        ensures
            r.codes() == Map::<Seq<char>, (Seq<char>, Seq<char>)>::empty(),
    {
        HashmapTwoFACodeStore::new()
    }
}

impl TwoFACodeStore for HashmapTwoFACodeStore {
    closed spec fn codes(&self) -> Map<Seq<char>, (Seq<char>, Seq<char>)> {
        self.codes@
    }

    fn add_code(&mut self, email: Email, login_attempt_id: LoginAttemptId, code: TwoFACode) -> (r:
        Result<(), TwoFACodeStoreError>)
        ensures
            r == Ok::<(), TwoFACodeStoreError>(()),
    {
        let key = String::from_str(email.as_ref());
        self.codes.insert(key, (login_attempt_id, code));
        Ok(())
    }

    fn remove_code(&mut self, email: &Email) -> (r: Result<(), TwoFACodeStoreError>)
        ensures
            r == Ok::<(), TwoFACodeStoreError>(()),
    {
        self.codes.remove(email.as_ref());
        Ok(())
    }

    fn get_code(&self, email: &Email) -> (r: Result<
        (LoginAttemptId, TwoFACode),
        TwoFACodeStoreError,
    >)
        ensures
            self.codes().contains_key(email@) ==> r is Ok,
            !self.codes().contains_key(email@) ==> r == Err::<
                (LoginAttemptId, TwoFACode),
                TwoFACodeStoreError,
            >(TwoFACodeStoreError::LoginAttemptIdNotFound),
    {
        match self.codes.get(email.as_ref()) {
            Some(pair) => Ok((pair.0.duplicate(), pair.1.duplicate())),
            None => Err(TwoFACodeStoreError::LoginAttemptIdNotFound),
        }
    }
}

} // verus!
