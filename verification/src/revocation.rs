//! The revocation store: tokens that must be rejected even while their
//! signature and expiry still check out.
//!
//! A record is written with a retention window equal to the token's own
//! validity window, so a revoked token can never outlive its record.  Keys
//! carry a fixed prefix so the records can share a physical backing with
//! other stores without collisions.

use vstd::prelude::*;
use crate::kv::MemKvStore;
use crate::strutil::{concat_str, lemma_prefix_injective};
use crate::token::TOKEN_TTL_SECONDS;

verus! {

/// Namespace of revocation records in a shared backing store.
pub open spec fn banned_key_prefix() -> Seq<char> {
    "banned_token:"@
}

/// The backing-store key of a token's revocation record.
pub fn get_key(token: &str) -> (r: String)
    ensures
        r@ == banned_key_prefix() + token@,
{
    concat_str("banned_token:", token)
}

/// Whether `m` marks `t` revoked at clock `now`.
pub open spec fn spec_is_revoked(m: Map<Seq<char>, u64>, t: Seq<char>, now: u64) -> bool {
    m.contains_key(t) && now < m[t]
}

/// Revoked tokens, each mapped to the instant its record lapses.
pub struct RevocationStore {
    kv: MemKvStore,
}

impl View for RevocationStore {
    type V = Map<Seq<char>, u64>;

    closed spec fn view(&self) -> Map<Seq<char>, u64> {
        Map::new(
            |t: Seq<char>| self.kv@.contains_key(banned_key_prefix() + t),
            |t: Seq<char>| self.kv@[banned_key_prefix() + t].1,
        )
    }
}

impl RevocationStore {
    pub fn new() -> (r: RevocationStore)
        ensures
            r@ == Map::<Seq<char>, u64>::empty(),
    {
        let r = RevocationStore { kv: MemKvStore::new() };
        proof {
            assert(r@ =~= Map::<Seq<char>, u64>::empty());
        }
        r
    }

    /// Records `token` as revoked for the retention window starting at
    /// `now`.  Revoking an already-revoked token simply rewrites its record.
    pub fn revoke(&mut self, token: &str, now: u64)
        requires
            now + TOKEN_TTL_SECONDS <= u64::MAX,
        ensures
            final(self)@ == old(self)@.insert(token@, (now + TOKEN_TTL_SECONDS) as u64),
    {
        let key = get_key(token);
        self.kv.set_ex(key.as_str(), "true", TOKEN_TTL_SECONDS, now);
        proof {
            let p = banned_key_prefix();
            let m2 = old(self)@.insert(token@, (now + TOKEN_TTL_SECONDS) as u64);
            assert forall|t: Seq<char>| #[trigger] self@.contains_key(t) implies m2.contains_key(t)
                && self@[t] == m2[t] by {
                if p + t == p + token@ {
                    lemma_prefix_injective(p, t, token@);
                }
            }
            assert forall|t: Seq<char>| #[trigger] m2.contains_key(t) implies self@.contains_key(t) by {
                if p + t == p + token@ {
                    lemma_prefix_injective(p, t, token@);
                }
            }
            assert(self@ =~= m2);
        }
    }

    /// Whether `token` stands revoked at clock `now`.
    pub fn is_revoked(&self, token: &str, now: u64) -> (r: bool)
        ensures
            r == spec_is_revoked(self@, token@, now),
    {
        let key = get_key(token);
        self.kv.key_exists(key.as_str(), now)
    }
}

/// Revocation monotonicity: once a token is revoked at `t0`, it reads as
/// revoked at every clock until the retention window elapses and not after;
/// revoking it again with the same clock changes nothing, and revoking it
/// again at a later clock leaves exactly the state of one revocation at
/// that later clock.
pub proof fn lemma_revocation_monotonic(
    m: Map<Seq<char>, u64>,
    t: Seq<char>,
    t0: u64,
    t1: u64,
    now: u64,
)
    requires
        t0 + TOKEN_TTL_SECONDS <= u64::MAX,
        t1 + TOKEN_TTL_SECONDS <= u64::MAX,
    ensures
        ({
            let m1 = m.insert(t, (t0 + TOKEN_TTL_SECONDS) as u64);
            &&& (t0 <= now < t0 + TOKEN_TTL_SECONDS ==> spec_is_revoked(m1, t, now))
            &&& (now >= t0 + TOKEN_TTL_SECONDS ==> !spec_is_revoked(m1, t, now))
            &&& m1.insert(t, (t0 + TOKEN_TTL_SECONDS) as u64) == m1
            &&& m1.insert(t, (t1 + TOKEN_TTL_SECONDS) as u64) == m.insert(
                t,
                (t1 + TOKEN_TTL_SECONDS) as u64,
            )
        }),
{
    let m1 = m.insert(t, (t0 + TOKEN_TTL_SECONDS) as u64);
    assert(m1.insert(t, (t0 + TOKEN_TTL_SECONDS) as u64) =~= m1);
    assert(m1.insert(t, (t1 + TOKEN_TTL_SECONDS) as u64) =~= m.insert(
        t,
        (t1 + TOKEN_TTL_SECONDS) as u64,
    ));
}

/// A revoked token cannot outlive its revocation record: the retention
/// window equals the token's validity window, so from the moment of
/// revocation to the token's own expiry the record still answers revoked.
pub proof fn lemma_record_outlives_token(
    m: Map<Seq<char>, u64>,
    t: Seq<char>,
    minted_at: u64,
    revoked_at: u64,
    now: u64,
)
    requires
        minted_at <= revoked_at <= now,
        now < minted_at + TOKEN_TTL_SECONDS,
        revoked_at + TOKEN_TTL_SECONDS <= u64::MAX,
    ensures
        spec_is_revoked(m.insert(t, (revoked_at + TOKEN_TTL_SECONDS) as u64), t, now),
{
}

} // verus!
