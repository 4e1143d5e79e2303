//! The single-process revocation list: a plain set of banned tokens.
//!
//! Entries live until the process ends; that exceeds every token's own
//! validity window, which is all the retention policy asks.

use vstd::prelude::*;
use crate::data_stores::BannedTokenStore;
use crate::strmap::StrMap;

verus! {

/// An in-memory set of revoked tokens.
pub struct HashsetBannedTokenStore {
    banned_token_store: StrMap<bool>,
}

impl HashsetBannedTokenStore {
    pub fn new() -> (r: HashsetBannedTokenStore)
        ensures
            r.banned() == Set::<Seq<char>>::empty(),
    {
        let r = HashsetBannedTokenStore { banned_token_store: StrMap::new() };
        proof {
            assert(r.banned() =~= Set::<Seq<char>>::empty());
        }
        r
    }
}

impl Default for HashsetBannedTokenStore {
    fn default() -> (r: HashsetBannedTokenStore)
        ensures
            r.banned() == Set::<Seq<char>>::empty(),
    {
        HashsetBannedTokenStore::new()
    }
}

impl BannedTokenStore for HashsetBannedTokenStore {
    closed spec fn banned(&self) -> Set<Seq<char>> {
        self.banned_token_store@.dom()
    }

    fn store_token(&mut self, token: String) -> (r: Result<bool, bool>)
        ensures
            r == Ok::<bool, bool>(true),
    {
        let ghost gt = token@;
        self.banned_token_store.insert(token, true);
        proof {
            assert(self.banned() =~= old(self).banned().insert(gt));
        }
        Ok(true)
    }

    fn token_exists(&self, token: &str) -> (r: Result<bool, bool>)
        ensures
            r == Ok::<bool, bool>(self.banned().contains(token@)),
    {
        Ok(self.banned_token_store.contains(token))
    }
}

} // verus!
