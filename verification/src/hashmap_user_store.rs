//! The single-process user directory, for deployments and tests that need
//! no persistent backing.

use vstd::prelude::*;
use crate::data_stores::{UserStore, UserStoreError};
use crate::email::Email;
use crate::password::Password;
use crate::strmap::StrMap;
use crate::strutil::str_eq;
use crate::user::User;

verus! {

/// An in-memory directory of users, keyed by address.
pub struct HashmapUserStore {
    users: StrMap<User>,
}

impl HashmapUserStore {
    pub fn new() -> (r: HashmapUserStore)
        ensures
            r.users() == Map::<Seq<char>, (Seq<char>, Seq<char>, bool)>::empty(),
    {
        HashmapUserStore { users: StrMap::new() }
    }
}

impl Default for HashmapUserStore {
    fn default() -> (r: HashmapUserStore)
        ensures
            r.users() == Map::<Seq<char>, (Seq<char>, Seq<char>, bool)>::empty(),
    {
        HashmapUserStore::new()
    }
}

impl UserStore for HashmapUserStore {
    closed spec fn users(&self) -> Map<Seq<char>, (Seq<char>, Seq<char>, bool)> {
        self.users@
    }

    fn add_user(&mut self, user: User) -> (r: Result<(), UserStoreError>)
        ensures
            old(self).users().contains_key(user.email@) <==> r == Err::<(), UserStoreError>(
                UserStoreError::UserAlreadyExists,
            ),
            !old(self).users().contains_key(user.email@) ==> r == Ok::<(), UserStoreError>(()),
    {
        if self.users.contains(user.email.as_ref()) {
            return Err(UserStoreError::UserAlreadyExists);
        }
        let key = String::from_str(user.email.as_ref());
        self.users.insert(key, user);
        Ok(())
    }

    fn get_user(&self, email: &Email) -> (r: Result<User, UserStoreError>)
        ensures
            self.users().contains_key(email@) ==> r is Ok,
            !self.users().contains_key(email@) ==> r == Err::<User, UserStoreError>(
                UserStoreError::UserNotFound,
            ),
    {
        match self.users.get(email.as_ref()) {
            Some(user) => Ok(user.duplicate()),
            None => Err(UserStoreError::UserNotFound),
        }
    }

    fn validate_user(&self, email: &Email, password: &Password) -> (r: Result<(), UserStoreError>)
        ensures
            self.users().contains_key(email@) && self.users()[email@].1 == password@ ==> r == Ok::<
                (),
                UserStoreError,
            >(()),
            self.users().contains_key(email@) && self.users()[email@].1 != password@ ==> r == Err::<
                (),
                UserStoreError,
            >(UserStoreError::InvalidCredentials),
            !self.users().contains_key(email@) ==> r == Err::<(), UserStoreError>(
                UserStoreError::UserNotFound,
            ),
    {
        match self.users.get(email.as_ref()) {
            Some(user) => {
                if str_eq(user.password.as_ref(), password.as_ref()) {
                    Ok(())
                } else {
                    Err(UserStoreError::InvalidCredentials)
                }
            },
            None => Err(UserStoreError::UserNotFound),
        }
    }
}

} // verus!
