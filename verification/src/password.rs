//! A validated password-equivalent secret.
//!
//! The only rule this core enforces is a minimum length at construction;
//! hashing and persistence are the user directory's business, so the value
//! is held as the caller supplied it and never logged or rewritten.

use vstd::prelude::*;
use vstd::utf8::encode_utf8;
use crate::error::ValidationError;

verus! {

/// Shortest secret the service accepts, measured in encoded bytes.
pub const MIN_PASSWORD_BYTES: usize = 8;

/// A secret that passed the length check at construction.
#[derive(Clone, Debug)]
pub struct Password(String);

impl View for Password {
    type V = Seq<char>;

    closed spec fn view(&self) -> Seq<char> {
        self.0@
    }
}

/// The length check as the machine makes it: the secret's encoded bytes,
/// counted as the in-memory length is.
pub open spec fn password_long_enough(s: Seq<char>) -> bool {
    encode_utf8(s).len() as usize >= MIN_PASSWORD_BYTES
}

impl Password {
    /// A `Password` can only hold a string of at least the minimum length.
    pub open spec fn wf(&self) -> bool {
        password_long_enough(self@)
    }

    /// Accepts exactly the strings of at least the minimum encoded length.
    pub fn parse(password: String) -> (r: Result<Self, ValidationError>)
        ensures
            password_long_enough(password@) ==> (r matches Ok(p) && p@ == password@),
            !password_long_enough(password@) ==> r == Err::<Password, ValidationError>(
                ValidationError::InvalidPassword,
            ),
            r matches Ok(p) ==> p.wf(),
    {
        if password.as_str().len() >= MIN_PASSWORD_BYTES {
            Ok(Password(password))
        } else {
            Err(ValidationError::InvalidPassword)
        }
    }

    /// The underlying secret, for the external directory to hash or compare.
    pub fn as_ref(&self) -> (r: &str)
        ensures
            r@ == self@,
    {
        self.0.as_str()
    }

    /// An equal copy, usable where the original must stay in place.
    pub fn duplicate(&self) -> (r: Password)
        ensures
            r == *self,
    {
        Password(self.0.clone())
    }
}

} // verus!
