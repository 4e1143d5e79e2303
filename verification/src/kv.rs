//! An in-memory realization of the store capability the service relies on:
//! get, set with a time-to-live, delete, exists.
//!
//! Every operation takes the clock as an argument; an entry is live while
//! the clock is strictly below its recorded expiry.  A multi-instance
//! deployment swaps this for an external store with native expiry; callers
//! depend only on the contracts below.

use vstd::prelude::*;
use crate::strmap::StrMap;

verus! {

/// A stored value and the instant it stops being served.
pub struct KvVal {
    pub value: String,
    pub expires_at: u64,
}

impl View for KvVal {
    type V = (Seq<char>, u64);

    open spec fn view(&self) -> (Seq<char>, u64) {
        (self.value@, self.expires_at)
    }
}

/// Whether `m` serves key `k` at clock `now`.
pub open spec fn kv_live(m: Map<Seq<char>, (Seq<char>, u64)>, k: Seq<char>, now: u64) -> bool {
    m.contains_key(k) && now < m[k].1
}

/// The in-memory key/value store with per-key expiry.
pub struct MemKvStore {
    map: StrMap<KvVal>,
}

impl View for MemKvStore {
    type V = Map<Seq<char>, (Seq<char>, u64)>;

    closed spec fn view(&self) -> Map<Seq<char>, (Seq<char>, u64)> {
        self.map@
    }
}

impl MemKvStore {
    pub fn new() -> (r: MemKvStore)
        ensures
            r@ == Map::<Seq<char>, (Seq<char>, u64)>::empty(),
    {
        MemKvStore { map: StrMap::new() }
    }

    /// Binds `key` to `value` until `ttl` seconds past `now`.
    pub fn set_ex(&mut self, key: &str, value: &str, ttl: u64, now: u64)
        requires
            now + ttl <= u64::MAX,
        ensures
            final(self)@ == old(self)@.insert(key@, (value@, (now + ttl) as u64)),
    {
        let v = KvVal { value: String::from_str(value), expires_at: now + ttl };
        self.map.insert(String::from_str(key), v);
    }

    /// The value under `key`, if one is live at `now`.
    pub fn get(&self, key: &str, now: u64) -> (r: Option<String>)
        ensures
            r matches Some(v) ==> kv_live(self@, key@, now) && v@ == self@[key@].0,
            r is None ==> !kv_live(self@, key@, now),
    {
        match self.map.get(key) {
            Some(kv) => {
                if now < kv.expires_at {
                    Some(kv.value.clone())
                } else {
                    None
                }
            },
            None => None,
        }
    }

    /// Whether `key` is live at `now`.
    pub fn key_exists(&self, key: &str, now: u64) -> (r: bool)
        ensures
            r == kv_live(self@, key@, now),
    {
        match self.map.get(key) {
            Some(kv) => now < kv.expires_at,
            None => false,
        }
    }

    /// Drops `key` entirely, live or not.
    pub fn del(&mut self, key: &str)
        ensures
            final(self)@ == old(self)@.remove(key@),
    {
        self.map.remove(key);
    }
}

} // verus!
