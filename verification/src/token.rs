//! The token service: mints and validates signed session tokens.
//!
//! A token is text in three fixed fields: the expiry instant in twenty
//! decimal digits, an eight-character authenticator over the other two
//! fields keyed by the service secret, and the subject itself.  Minting and
//! validation are pure functions of the secret and an injected clock; the
//! service holds no mutable state.

use vstd::prelude::*;
use crate::digits::{
    all_dec, format_dec, format_hex, lemma_parse_pad_dec, lemma_pad_dec_chars, lemma_pow10_19_value,
    pad_dec, pad_hex, parse_dec, parse_dec_u64, pow10, pow16,
};
use crate::email::Email;
use crate::strutil::{concat_str, str_eq};

verus! {

/// How long a freshly minted token stays valid, in seconds.
pub const TOKEN_TTL_SECONDS: u64 = 600;

/// Modulus of the authenticator fold.
pub const MAC_MODULUS: u64 = 1_000_000_007;

/// Seed of the authenticator fold.
pub const MAC_SEED: u64 = 5381;

/// Width of the decimal expiry field.
pub const EXPIRY_CHARS: usize = 20;

/// Width of the hexadecimal authenticator field.
pub const TAG_CHARS: usize = 8;

/// Why a token was rejected.
#[derive(Debug, PartialEq, Eq)]
pub enum TokenError {
    Malformed,
    BadSignature,
    Expired,
}

/// The keyed fold the authenticator is built from, one character at a time.
pub open spec fn mac_fold(s: Seq<char>, h: nat) -> nat
    decreases s.len(),
{
    if s.len() == 0 {
        h
    } else {
        mac_fold(s.subrange(1, s.len() as int), (h * 31 + s[0] as nat) % (MAC_MODULUS as nat))
    }
}

/// The authenticator value of a payload under a secret.
pub open spec fn mac_of(secret: Seq<char>, payload: Seq<char>) -> nat {
    mac_fold(secret + payload, MAC_SEED as nat)
}

/// The exact text a token for `subject` expiring at `expiry` has.
pub open spec fn spec_token(secret: Seq<char>, subject: Seq<char>, expiry: u64) -> Seq<char> {
    pad_dec(expiry as nat, EXPIRY_CHARS as nat) + pad_hex(
        mac_of(secret, pad_dec(expiry as nat, EXPIRY_CHARS as nat) + subject),
        TAG_CHARS as nat,
    ) + subject
}

/// What validation decides about a raw string at clock `now`: the subject
/// when the fields check out and the token is not yet expired, otherwise
/// exactly one error.
pub open spec fn spec_validate(secret: Seq<char>, raw: Seq<char>, now: u64) -> Result<
    Seq<char>,
    TokenError,
> {
    if raw.len() < EXPIRY_CHARS + TAG_CHARS {
        Err(TokenError::Malformed)
    } else {
        let ds = raw.subrange(0, EXPIRY_CHARS as int);
        if !all_dec(ds) || parse_dec(ds) > u64::MAX {
            Err(TokenError::Malformed)
        } else {
            let tag = raw.subrange(EXPIRY_CHARS as int, (EXPIRY_CHARS + TAG_CHARS) as int);
            let subject = raw.subrange((EXPIRY_CHARS + TAG_CHARS) as int, raw.len() as int);
            if tag != pad_hex(mac_of(secret, ds + subject), TAG_CHARS as nat) {
                Err(TokenError::BadSignature)
            } else if now >= parse_dec(ds) {
                Err(TokenError::Expired)
            } else {
                Ok(subject)
            }
        }
    }
}

proof fn lemma_mac_fold_bound(s: Seq<char>, h: nat)
    requires
        h < MAC_MODULUS,
    ensures
        mac_fold(s, h) < MAC_MODULUS,
    decreases s.len(),
{
    if s.len() > 0 {
        lemma_mac_fold_bound(s.subrange(1, s.len() as int), (h * 31 + s[0] as nat) % (
        MAC_MODULUS as nat));
    }
}

proof fn lemma_mac_fold_concat(a: Seq<char>, b: Seq<char>, h: nat)
    ensures
        mac_fold(a + b, h) == mac_fold(b, mac_fold(a, h)),
    decreases a.len(),
{
    if a.len() == 0 {
        assert(a + b =~= b);
    } else {
        let step = (h * 31 + (a + b)[0] as nat) % (MAC_MODULUS as nat);
        assert((a + b)[0] == a[0]);
        assert((a + b).subrange(1, (a + b).len() as int) =~= a.subrange(1, a.len() as int) + b);
        lemma_mac_fold_concat(a.subrange(1, a.len() as int), b, step);
    }
}

/// One pass of the authenticator fold over `s`, starting from `h0`.
fn mac_update(s: &str, h0: u64) -> (r: u64)
    requires
        h0 < MAC_MODULUS,
    ensures
        r as nat == mac_fold(s@, h0 as nat),
        r < MAC_MODULUS,
{
    let len = s.unicode_len();
    let mut h: u64 = h0;
    let mut i: usize = 0;
    proof {
        assert(s@.subrange(0, len as int) =~= s@);
    }
    while i < len
        invariant
            len == s@.len(),
            i <= len,
            h < MAC_MODULUS,
            mac_fold(s@.subrange(i as int, len as int), h as nat) == mac_fold(s@, h0 as nat),
        decreases len - i,
    {
        let c = s.get_char(i);
        let cv = (c as u32) as u64;
        proof {
            let t = s@.subrange(i as int, len as int);
            assert(t[0] == s@[i as int]);
            assert(t.subrange(1, t.len() as int) =~= s@.subrange(i + 1, len as int));
        }
        h = (h * 31 + cv) % MAC_MODULUS;
        i = i + 1;
    }
    proof {
        assert(s@.subrange(len as int, len as int) =~= Seq::<char>::empty());
    }
    h
}

/// The authenticator field for a payload under a secret.
fn compute_tag(secret: &str, payload: &str) -> (r: String)
    ensures
        r@ == pad_hex(mac_of(secret@, payload@), TAG_CHARS as nat),
        r@.len() == TAG_CHARS,
{
    let h = mac_update(secret, MAC_SEED);
    let m = mac_update(payload, h);
    proof {
        lemma_mac_fold_concat(secret@, payload@, MAC_SEED as nat);
        reveal_with_fuel(pow16, 10);
        assert(pow16(8) == 0x1_0000_0000);
    }
    format_hex(m, TAG_CHARS)
}

/// Mints and validates session tokens under one process-wide secret.
pub struct TokenService {
    secret: String,
}

impl TokenService {
    /// The signing secret this service was configured with.
    pub closed spec fn spec_secret(&self) -> Seq<char> {
        self.secret@
    }

    pub fn new(secret: String) -> (r: TokenService)
        ensures
            r.spec_secret() == secret@,
    {
        TokenService { secret }
    }

    /// Mints the token for `subject` that expires a fixed window after `now`.
    pub fn mint(&self, subject: &Email, now: u64) -> (r: String)
        requires
            now + TOKEN_TTL_SECONDS <= u64::MAX,
        ensures
            r@ == spec_token(self.spec_secret(), subject@, (now + TOKEN_TTL_SECONDS) as u64),
    {
        let expiry = now + TOKEN_TTL_SECONDS;
        proof {
            lemma_pow10_19_value();
            assert(pow10(20) == 10 * pow10(19));
        }
        let ds = format_dec(expiry, EXPIRY_CHARS);
        let payload = concat_str(ds.as_str(), subject.as_ref());
        let tag = compute_tag(self.secret.as_str(), payload.as_str());
        let mut out = ds;
        out.append(tag.as_str());
        out.append(subject.as_ref());
        proof {
            assert(out@ =~= spec_token(
                self.spec_secret(),
                subject@,
                (now + TOKEN_TTL_SECONDS) as u64,
            ));
        }
        out
    }

    /// Checks shape, authenticator and expiry, and returns the subject of a
    /// token that passes all three at clock `now`.
    pub fn validate(&self, raw: &str, now: u64) -> (r: Result<String, TokenError>)
        ensures
            match r {
                Ok(s) => spec_validate(self.spec_secret(), raw@, now) == Ok::<Seq<char>, TokenError>(
                    s@,
                ),
                Err(e) => spec_validate(self.spec_secret(), raw@, now) == Err::<
                    Seq<char>,
                    TokenError,
                >(e),
            },
    {
        let len = raw.unicode_len();
        if len < EXPIRY_CHARS + TAG_CHARS {
            return Err(TokenError::Malformed);
        }
        let ds = raw.substring_char(0, EXPIRY_CHARS);
        let expiry = match parse_dec_u64(ds) {
            Some(v) => v,
            None => {
                return Err(TokenError::Malformed);
            },
        };
        let tag = raw.substring_char(EXPIRY_CHARS, EXPIRY_CHARS + TAG_CHARS);
        let subject = raw.substring_char(EXPIRY_CHARS + TAG_CHARS, len);
        let payload = concat_str(ds, subject);
        let expected = compute_tag(self.secret.as_str(), payload.as_str());
        if !str_eq(tag, expected.as_str()) {
            return Err(TokenError::BadSignature);
        }
        if now >= expiry {
            return Err(TokenError::Expired);
        }
        Ok(String::from_str(subject))
    }
}

/// Round trip: a minted token, validated under the same secret at any clock
/// before its expiry, yields exactly the subject it was minted for.
pub proof fn lemma_token_round_trip(secret: Seq<char>, subject: Seq<char>, expiry: u64, now: u64)
    requires
        now < expiry,
    ensures
        spec_validate(secret, spec_token(secret, subject, expiry), now) == Ok::<
            Seq<char>,
            TokenError,
        >(subject),
{
    lemma_token_fields(secret, subject, expiry);
}

/// Expiry: a minted token is rejected as expired at every clock at or past
/// its expiry instant, under the same secret.
pub proof fn lemma_token_expiry(secret: Seq<char>, subject: Seq<char>, expiry: u64, now: u64)
    requires
        now >= expiry,
    ensures
        spec_validate(secret, spec_token(secret, subject, expiry), now) == Err::<
            Seq<char>,
            TokenError,
        >(TokenError::Expired),
{
    lemma_token_fields(secret, subject, expiry);
}

/// The three fields of a minted token read back as they were written.
proof fn lemma_token_fields(secret: Seq<char>, subject: Seq<char>, expiry: u64)
    ensures
        ({
            let t = spec_token(secret, subject, expiry);
            &&& t.len() == EXPIRY_CHARS + TAG_CHARS + subject.len()
            &&& t.subrange(0, EXPIRY_CHARS as int) == pad_dec(expiry as nat, EXPIRY_CHARS as nat)
            &&& all_dec(t.subrange(0, EXPIRY_CHARS as int))
            &&& parse_dec(t.subrange(0, EXPIRY_CHARS as int)) == expiry as nat
            &&& t.subrange(EXPIRY_CHARS as int, (EXPIRY_CHARS + TAG_CHARS) as int) == pad_hex(
                mac_of(secret, t.subrange(0, EXPIRY_CHARS as int) + subject),
                TAG_CHARS as nat,
            )
            &&& t.subrange((EXPIRY_CHARS + TAG_CHARS) as int, t.len() as int) == subject
        }),
{
    let ds = pad_dec(expiry as nat, EXPIRY_CHARS as nat);
    let tag = pad_hex(mac_of(secret, ds + subject), TAG_CHARS as nat);
    let t = spec_token(secret, subject, expiry);
    assert(t.subrange(0, EXPIRY_CHARS as int) =~= ds);
    assert(t.subrange(EXPIRY_CHARS as int, (EXPIRY_CHARS + TAG_CHARS) as int) =~= tag);
    assert(t.subrange((EXPIRY_CHARS + TAG_CHARS) as int, t.len() as int) =~= subject);
    lemma_pad_dec_chars(expiry as nat, EXPIRY_CHARS as nat);
    lemma_pow10_19_value();
    assert(pow10(20) == 10 * pow10(19));
    lemma_parse_pad_dec(expiry as nat, EXPIRY_CHARS as nat);
}

} // verus!
