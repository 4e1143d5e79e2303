//! A message client that sends nothing: the stand-in transport for tests
//! and single-process runs.  Real transports implement the same interface
//! at the boundary.

use vstd::prelude::*;
use crate::data_stores::{EmailClient, EmailClientError};
use crate::email::Email;

verus! {

/// Accepts every message and drops it.
pub struct MockEmailClient;

impl EmailClient for MockEmailClient {
    fn send_email(&self, recipient: &Email, subject: &str, content: &str) -> (r: Result<
        (),
        EmailClientError,
    >) {
        Ok(())
    }
}

} // verus!
