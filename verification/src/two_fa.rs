//! The two halves of a second-factor challenge: the attempt identifier the
//! caller gets back, and the short numeric code sent out of band.
//!
//! Both are fixed-format strings, so a stored pair can be serialized and
//! read back exactly, and fresh values are drawn from the process's
//! randomness and then rendered by verified formatting.

use vstd::prelude::*;
use crate::digits::{
    all_dec, all_hex, check_all_dec, check_all_hex, format_dec, format_hex, pad_hex, pow10, pow16,
    lemma_pad_dec_chars, lemma_pad_hex_chars,
};
use crate::error::ValidationError;

verus! {

/// Relies on rand::random: a fresh value of the standard distribution;
/// nothing can be promised of it.
pub assume_specification<T>[ rand::random::<T> ]() -> (r: T)
    where
        rand::distributions::Standard: rand::distributions::Distribution<T>,
;

/// Length of an attempt identifier, in hexadecimal characters.
pub const ATTEMPT_ID_CHARS: usize = 32;

/// Length of a challenge code, in decimal digits.
pub const CODE_CHARS: usize = 6;

/// An opaque identifier naming one login attempt awaiting its second factor.
#[derive(Clone, Debug)]
pub struct LoginAttemptId(String);

impl View for LoginAttemptId {
    type V = Seq<char>;

    closed spec fn view(&self) -> Seq<char> {
        self.0@
    }
}

/// The shape every attempt identifier has: 32 lower-case hex characters.
pub open spec fn valid_attempt_id(s: Seq<char>) -> bool {
    s.len() == ATTEMPT_ID_CHARS && all_hex(s)
}

impl LoginAttemptId {
    pub open spec fn wf(&self) -> bool {
        valid_attempt_id(self@)
    }

    /// Accepts exactly the well-shaped identifiers.
    pub fn parse(id: String) -> (r: Result<Self, ValidationError>)
        ensures
            r matches Ok(x) ==> x@ == id@,
            r is Ok <==> valid_attempt_id(id@),
            r matches Err(v) ==> v == ValidationError::InvalidLoginAttemptId,
    {
        if id.as_str().unicode_len() == ATTEMPT_ID_CHARS && check_all_hex(id.as_str()) {
            Ok(LoginAttemptId(id))
        } else {
            Err(ValidationError::InvalidLoginAttemptId)
        }
    }

    pub fn as_ref(&self) -> (r: &str)
        ensures
            r@ == self@,
    {
        self.0.as_str()
    }

    /// An equal copy, usable where the original must stay in place.
    pub fn duplicate(&self) -> (r: LoginAttemptId)
        ensures
            r == *self,
    {
        LoginAttemptId(self.0.clone())
    }
}

impl Default for LoginAttemptId {
    /// A fresh random identifier; well-shaped, otherwise unconstrained.
    fn default() -> (r: Self)
        ensures
            r.wf(),
    {
        proof {
            reveal_with_fuel(pow16, 18);
            assert(pow16(16) == 0x1_0000_0000_0000_0000);
        }
        let hi: u64 = rand::random::<u64>();
        let lo: u64 = rand::random::<u64>();
        let mut s = format_hex(hi, 16);
        let tail = format_hex(lo, 16);
        s.append(tail.as_str());
        proof {
            lemma_pad_hex_chars(hi as nat, 16);
            lemma_pad_hex_chars(lo as nat, 16);
            assert(all_hex(s@)) by {
                assert(forall|i: int|
                    0 <= i < 16 ==> #[trigger] s@[i] == pad_hex(hi as nat, 16)[i]);
                assert(forall|i: int|
                    16 <= i < 32 ==> #[trigger] s@[i] == pad_hex(lo as nat, 16)[i - 16]);
            }
        }
        LoginAttemptId(s)
    }
}

/// The short numeric secret dispatched to the principal out of band.
#[derive(Clone, Debug)]
pub struct TwoFACode(String);

impl View for TwoFACode {
    type V = Seq<char>;

    closed spec fn view(&self) -> Seq<char> {
        self.0@
    }
}

/// The shape every challenge code has: exactly 6 decimal digits.
pub open spec fn valid_two_fa_code(s: Seq<char>) -> bool {
    s.len() == CODE_CHARS && all_dec(s)
}

impl TwoFACode {
    pub open spec fn wf(&self) -> bool {
        valid_two_fa_code(self@)
    }

    /// Accepts exactly the well-shaped codes.  The code is compared for
    /// equality as text, never parsed back into a number.
    pub fn parse(code: String) -> (r: Result<Self, ValidationError>)
        ensures
            r matches Ok(x) ==> x@ == code@,
            r is Ok <==> valid_two_fa_code(code@),
            r matches Err(v) ==> v == ValidationError::InvalidTwoFACode,
    {
        if code.as_str().unicode_len() == CODE_CHARS && check_all_dec(code.as_str()) {
            Ok(TwoFACode(code))
        } else {
            Err(ValidationError::InvalidTwoFACode)
        }
    }

    pub fn as_ref(&self) -> (r: &str)
        ensures
            r@ == self@,
    {
        self.0.as_str()
    }

    /// An equal copy, usable where the original must stay in place.
    pub fn duplicate(&self) -> (r: TwoFACode)
        ensures
            r == *self,
    {
        TwoFACode(self.0.clone())
    }
}

impl Default for TwoFACode {
    /// A fresh random code; well-shaped, otherwise unconstrained.
    fn default() -> (r: Self)
        ensures
            r.wf(),
    {
        proof {
            reveal_with_fuel(pow10, 8);
            assert(pow10(6) == 1_000_000);
        }
        let n: u64 = rand::random::<u64>();
        let code = n % 1_000_000;
        let s = format_dec(code, 6);
        proof {
            lemma_pad_dec_chars(code as nat, 6);
        }
        TwoFACode(s)
    }
}

} // verus!
