//! Session and credential core of an authentication service.
//!
//! The library issues, validates and revokes signed bearer tokens, and runs
//! the optional second-factor challenge that may stand between a credential
//! check and a granted session.  Every data structure and decision here is
//! verified; HTTP transport, the persistent user directory and the outbound
//! mail transport live outside and talk to this core through plain values.

pub mod challenge;
pub mod data_stores;
pub mod digits;
pub mod email;
pub mod email_client;
pub mod error;
pub mod hashmap_two_fa_code_store;
pub mod hashmap_user_store;
pub mod hashset_banned_token_store;
pub mod kv;
pub mod login;
pub mod logout;
pub mod password;
pub mod revocation;
pub mod session;
pub mod signup;
pub mod strmap;
pub mod strutil;
pub mod token;
pub mod two_fa;
pub mod user;
pub mod verify_2fa;
pub mod verify_token;

pub use email::Email;
pub use error::{AuthAPIError, ErrorResponse, ValidationError};
pub use password::Password;
pub use two_fa::{LoginAttemptId, TwoFACode};
pub use user::User;
