//! The validated principal identity: an e-mail address.
//!
//! Equality and storage are case-normalized: the address is folded to lower
//! case before validation, so two spellings of one mailbox meet the same
//! stores and the same challenge records.

use vstd::prelude::*;
use crate::error::ValidationError;

verus! {

/// What `validator::validate_email` accepts of a string.
pub uninterp spec fn is_valid_email(s: Seq<char>) -> bool;

/// What `str::to_lowercase` makes of a string.
pub uninterp spec fn lower_of(s: Seq<char>) -> Seq<char>;

/// Relies on validator::validate_email: a pure HTML5-shape check of the
/// argument alone.
#[verifier::external_body]
fn email_format_ok(s: &str) -> (r: bool)
    ensures
        r == is_valid_email(s@),
{
    validator::validate_email(s)
}

/// Relies on str::to_lowercase: the result depends on the characters alone,
/// and an empty string stays empty.
#[verifier::external_body]
fn lowercase(s: &str) -> (r: String)
    ensures
        r@ == lower_of(s@),
        s@.len() == 0 ==> r@.len() == 0,
{
    s.to_lowercase()
}

/// A case-normalized address that passed the format check.
#[derive(Clone, Debug)]
pub struct Email(String);

impl View for Email {
    type V = Seq<char>;

    closed spec fn view(&self) -> Seq<char> {
        self.0@
    }
}

impl Email {
    /// An `Email` only ever holds an address that passed the format check.
    pub open spec fn wf(&self) -> bool {
        is_valid_email(self@)
    }

    /// Folds the address to lower case, then accepts exactly the valid ones.
    pub fn parse(email: String) -> (r: Result<Self, ValidationError>)
        ensures
            r matches Ok(e) ==> e@ == lower_of(email@) && is_valid_email(lower_of(email@)),
            r is Err <==> !is_valid_email(lower_of(email@)),
            r matches Err(v) ==> v == ValidationError::InvalidEmail,
    {
        let lowered = lowercase(email.as_str());
        if email_format_ok(lowered.as_str()) {
            Ok(Email(lowered))
        } else {
            Err(ValidationError::InvalidEmail)
        }
    }

    /// The address itself, for keys, messages and transport.
    pub fn as_ref(&self) -> (r: &str)
        ensures
            r@ == self@,
    {
        self.0.as_str()
    }

    /// An equal copy, usable where the original must stay in place.
    pub fn duplicate(&self) -> (r: Email)
        ensures
            r == *self,
    {
        Email(self.0.clone())
    }
}

} // verus!
