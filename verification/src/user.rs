//! A directory record: who the principal is, their secret, and whether a
//! second factor stands between their credentials and a session.

use vstd::prelude::*;
use crate::email::Email;
use crate::password::Password;

verus! {

pub struct User {
    pub email: Email,
    pub password: Password,
    pub requires_2fa: bool,
}

impl View for User {
    type V = (Seq<char>, Seq<char>, bool);

    open spec fn view(&self) -> (Seq<char>, Seq<char>, bool) {
        (self.email@, self.password@, self.requires_2fa)
    }
}

impl User {
    /// An equal copy, usable where the original must stay in place.
    pub fn duplicate(&self) -> (r: User)
        ensures
            r == *self,
    {
        User {
            email: self.email.duplicate(),
            password: self.password.duplicate(),
            requires_2fa: self.requires_2fa,
        }
    }
}

} // verus!
