//! The challenge store: at most one outstanding second-factor challenge per
//! principal, auto-expiring after a short window.
//!
//! The stored pair is serialized exactly — both fields are fixed-width, so
//! the encoding is their concatenation and the round trip is literal.  Keys
//! carry a fixed prefix, as the revocation store's do.

use vstd::prelude::*;
use crate::data_stores::TwoFACodeStoreError;
use crate::email::Email;
use crate::kv::MemKvStore;
use crate::strutil::{concat_str, lemma_prefix_injective};
use crate::two_fa::{
    valid_attempt_id, valid_two_fa_code, LoginAttemptId, TwoFACode, ATTEMPT_ID_CHARS, CODE_CHARS,
};

verus! {

/// How long a challenge stays redeemable.
pub const TEN_MINUTES_IN_SECONDS: u64 = 600;

/// Namespace of challenge records in a shared backing store.
pub open spec fn two_fa_key_prefix() -> Seq<char> {
    "two_fa_code:"@
}

/// The backing-store key of a principal's challenge record.
pub fn get_key(email: &Email) -> (r: String)
    ensures
        r@ == two_fa_key_prefix() + email@,
{
    concat_str("two_fa_code:", email.as_ref())
}

/// The exact serialized form of a stored pair: identifier, then code.
pub open spec fn spec_encode_pair(id: Seq<char>, code: Seq<char>) -> Seq<char> {
    id + code
}

/// What a serialized pair reads back as, if it is well-formed.
pub open spec fn spec_decode_pair(s: Seq<char>) -> Option<(Seq<char>, Seq<char>)> {
    if s.len() == ATTEMPT_ID_CHARS + CODE_CHARS {
        let id = s.subrange(0, ATTEMPT_ID_CHARS as int);
        let code = s.subrange(ATTEMPT_ID_CHARS as int, (ATTEMPT_ID_CHARS + CODE_CHARS) as int);
        if valid_attempt_id(id) && valid_two_fa_code(code) {
            Some((id, code))
        } else {
            None
        }
    } else {
        None
    }
}

/// Serialization of the pair is exact: both fields round-trip unchanged.
pub proof fn lemma_pair_round_trip(id: Seq<char>, code: Seq<char>)
    requires
        valid_attempt_id(id),
        valid_two_fa_code(code),
    ensures
        spec_decode_pair(spec_encode_pair(id, code)) == Some((id, code)),
{
    let s = id + code;
    assert(s.subrange(0, ATTEMPT_ID_CHARS as int) =~= id);
    assert(s.subrange(ATTEMPT_ID_CHARS as int, (ATTEMPT_ID_CHARS + CODE_CHARS) as int) =~= code);
}

fn encode_pair(id: &LoginAttemptId, code: &TwoFACode) -> (r: String)
    ensures
        r@ == spec_encode_pair(id@, code@),
{
    concat_str(id.as_ref(), code.as_ref())
}

fn decode_pair(s: &str) -> (r: Option<(LoginAttemptId, TwoFACode)>)
    ensures
        r matches Some(p) ==> spec_decode_pair(s@) == Some((p.0@, p.1@)),
        r is None ==> spec_decode_pair(s@) is None,
{
    let len = s.unicode_len();
    if len != ATTEMPT_ID_CHARS + CODE_CHARS {
        return None;
    }
    let id_part = s.substring_char(0, ATTEMPT_ID_CHARS);
    let code_part = s.substring_char(ATTEMPT_ID_CHARS, len);
    match LoginAttemptId::parse(String::from_str(id_part)) {
        Ok(id) => match TwoFACode::parse(String::from_str(code_part)) {
            Ok(code) => Some((id, code)),
            Err(_) => None,
        },
        Err(_) => None,
    }
}

/// Whether `m` holds a redeemable challenge for `e` at clock `now`.
pub open spec fn spec_challenge_live(
    m: Map<Seq<char>, (Seq<char>, Seq<char>, u64)>,
    e: Seq<char>,
    now: u64,
) -> bool {
    m.contains_key(e) && now < m[e].2
}

/// Outstanding challenges: principal to (identifier, code, expiry instant).
pub struct ChallengeStore {
    kv: MemKvStore,
}

impl ChallengeStore {
    /// Every value this store ever writes is a well-formed serialized pair,
    /// so a stored challenge always reads back.
    #[verifier::type_invariant]
    spec fn well_formed(&self) -> bool {
        forall|k: Seq<char>| #[trigger]
            self.kv@.contains_key(k) ==> spec_decode_pair(self.kv@[k].0) is Some
    }
}

impl View for ChallengeStore {
    type V = Map<Seq<char>, (Seq<char>, Seq<char>, u64)>;

    closed spec fn view(&self) -> Map<Seq<char>, (Seq<char>, Seq<char>, u64)> {
        Map::new(
            |e: Seq<char>| self.kv@.contains_key(two_fa_key_prefix() + e) && spec_decode_pair(
                self.kv@[two_fa_key_prefix() + e].0,
            ) is Some,
            |e: Seq<char>|
                {
                    let d = spec_decode_pair(self.kv@[two_fa_key_prefix() + e].0).unwrap();
                    (d.0, d.1, self.kv@[two_fa_key_prefix() + e].1)
                },
        )
    }
}

impl ChallengeStore {
    pub fn new() -> (r: ChallengeStore)
        ensures
            r@ == Map::<Seq<char>, (Seq<char>, Seq<char>, u64)>::empty(),
    {
        let r = ChallengeStore { kv: MemKvStore::new() };
        proof {
            assert(r@ =~= Map::<Seq<char>, (Seq<char>, Seq<char>, u64)>::empty());
        }
        r
    }

    /// Stores the challenge for `email`, overwriting any earlier one, with
    /// the fixed challenge window starting at `now`.
    pub fn add_code(
        &mut self,
        email: &Email,
        login_attempt_id: &LoginAttemptId,
        code: &TwoFACode,
        now: u64,
    )
        requires
            login_attempt_id.wf(),
            code.wf(),
            now + TEN_MINUTES_IN_SECONDS <= u64::MAX,
        ensures
            final(self)@ == old(self)@.insert(
                email@,
                (login_attempt_id@, code@, (now + TEN_MINUTES_IN_SECONDS) as u64),
            ),
    {
        proof {
            use_type_invariant(&*self);
        }
        let key = get_key(email);
        let value = encode_pair(login_attempt_id, code);
        let mut kv = MemKvStore::new();
        std::mem::swap(&mut kv, &mut self.kv);
        kv.set_ex(key.as_str(), value.as_str(), TEN_MINUTES_IN_SECONDS, now);
        proof {
            lemma_pair_round_trip(login_attempt_id@, code@);
        }
        std::mem::swap(&mut kv, &mut self.kv);
        proof {
            let p = two_fa_key_prefix();
            let m2 = old(self)@.insert(
                email@,
                (login_attempt_id@, code@, (now + TEN_MINUTES_IN_SECONDS) as u64),
            );
            assert forall|e: Seq<char>| #[trigger] self@.contains_key(e) implies m2.contains_key(e)
                && self@[e] == m2[e] by {
                if p + e == p + email@ {
                    lemma_prefix_injective(p, e, email@);
                }
            }
            assert forall|e: Seq<char>| #[trigger] m2.contains_key(e) implies self@.contains_key(
                e,
            ) by {
                if p + e == p + email@ {
                    lemma_prefix_injective(p, e, email@);
                }
            }
            assert(self@ =~= m2);
        }
    }

    /// The stored pair for `email`, while its record is live at `now`.
    /// Whether the challenge was never issued, already redeemed or expired
    /// is indistinguishable in the answer.
    pub fn get_code(&self, email: &Email, now: u64) -> (r: Result<
        (LoginAttemptId, TwoFACode),
        TwoFACodeStoreError,
    >)
        ensures
            r matches Ok(p) ==> spec_challenge_live(self@, email@, now) && p.0@ == self@[email@].0
                && p.1@ == self@[email@].1,
            spec_challenge_live(self@, email@, now) ==> r is Ok,
            !spec_challenge_live(self@, email@, now) ==> r == Err::<
                (LoginAttemptId, TwoFACode),
                TwoFACodeStoreError,
            >(TwoFACodeStoreError::LoginAttemptIdNotFound),
    {
        proof {
            use_type_invariant(&*self);
        }
        let key = get_key(email);
        match self.kv.get(key.as_str(), now) {
            Some(v) => match decode_pair(v.as_str()) {
                Some(p) => Ok(p),
                // cannot happen: every stored value decodes (type invariant)
                None => Err(TwoFACodeStoreError::LoginAttemptIdNotFound),
            },
            None => Err(TwoFACodeStoreError::LoginAttemptIdNotFound),
        }
    }

    /// Deletes the challenge for `email`, live or not.
    pub fn remove_code(&mut self, email: &Email)
        ensures
            final(self)@ == old(self)@.remove(email@),
    {
        proof {
            use_type_invariant(&*self);
        }
        let key = get_key(email);
        let mut kv = MemKvStore::new();
        std::mem::swap(&mut kv, &mut self.kv);
        kv.del(key.as_str());
        std::mem::swap(&mut kv, &mut self.kv);
        proof {
            let p = two_fa_key_prefix();
            let m2 = old(self)@.remove(email@);
            assert forall|e: Seq<char>| #[trigger] self@.contains_key(e) implies m2.contains_key(e)
                && self@[e] == m2[e] by {
                if p + e == p + email@ {
                    lemma_prefix_injective(p, e, email@);
                }
            }
            assert forall|e: Seq<char>| #[trigger] m2.contains_key(e) implies self@.contains_key(
                e,
            ) by {
                if p + e == p + email@ {
                    lemma_prefix_injective(p, e, email@);
                }
            }
            assert(self@ =~= m2);
        }
    }
}

} // verus!
