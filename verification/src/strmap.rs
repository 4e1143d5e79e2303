//! A string-keyed map, verified against a mathematical `Map` view.
//!
//! The representation is an association vector where the newest binding of a
//! key wins; `remove` erases every binding of the key.  No well-formedness
//! side condition leaks into the interface: the view alone tells the story.

use vstd::prelude::*;

verus! {

/// The newest binding of `k` in `s`, if any.
pub open spec fn assoc_lookup<V>(s: Seq<(String, V)>, k: Seq<char>) -> Option<V>
    decreases s.len(),
{
    if s.len() == 0 {
        None
    } else if s.last().0@ == k {
        Some(s.last().1)
    } else {
        assoc_lookup(s.drop_last(), k)
    }
}

/// `s` with every binding of `k` erased, order otherwise kept.
pub open spec fn assoc_erase<V>(s: Seq<(String, V)>, k: Seq<char>) -> Seq<(String, V)>
    decreases s.len(),
{
    if s.len() == 0 {
        s
    } else if s.last().0@ == k {
        assoc_erase(s.drop_last(), k)
    } else {
        assoc_erase(s.drop_last(), k).push(s.last())
    }
}

proof fn lemma_lookup_erase<V>(s: Seq<(String, V)>, k: Seq<char>, k2: Seq<char>)
    ensures
        assoc_lookup(assoc_erase(s, k), k2) == if k2 == k {
            None::<V>
        } else {
            assoc_lookup(s, k2)
        },
    decreases s.len(),
{
    if s.len() > 0 {
        lemma_lookup_erase(s.drop_last(), k, k2);
        if s.last().0@ != k {
            let t = assoc_erase(s.drop_last(), k).push(s.last());
            assert(t.drop_last() =~= assoc_erase(s.drop_last(), k));
        }
    }
}

proof fn lemma_erase_no_match<V>(s: Seq<(String, V)>, k: Seq<char>)
    requires
        forall|j: int| 0 <= j < s.len() ==> (#[trigger] s[j]).0@ != k,
    ensures
        assoc_erase(s, k) == s,
    decreases s.len(),
{
    if s.len() > 0 {
        lemma_erase_no_match(s.drop_last(), k);
        assert(assoc_erase(s, k) =~= s);
    }
}

proof fn lemma_erase_remove_at<V>(s: Seq<(String, V)>, i: int, k: Seq<char>)
    requires
        0 <= i < s.len(),
        s[i].0@ == k,
    ensures
        assoc_erase(s.subrange(0, i) + s.subrange(i + 1, s.len() as int), k) == assoc_erase(s, k),
    decreases s.len(),
{
    let t = s.subrange(0, i) + s.subrange(i + 1, s.len() as int);
    if i == s.len() - 1 {
        assert(t =~= s.drop_last());
    } else {
        assert(t.last() == s.last());
        assert(t.drop_last() =~= s.drop_last().subrange(0, i) + s.drop_last().subrange(
            i + 1,
            s.len() - 1,
        ));
        lemma_erase_remove_at(s.drop_last(), i, k);
        if s.last().0@ != k {
            assert(assoc_erase(t, k) == assoc_erase(t.drop_last(), k).push(t.last()));
        }
    }
}

/// A map from strings to values, with a `Map` view.
pub struct StrMap<V> {
    pairs: Vec<(String, V)>,
}

impl<V: View> View for StrMap<V> {
    type V = Map<Seq<char>, V::V>;

    closed spec fn view(&self) -> Map<Seq<char>, V::V> {
        Map::new(
            |k: Seq<char>| assoc_lookup(self.pairs@, k) is Some,
            |k: Seq<char>| assoc_lookup(self.pairs@, k).unwrap()@,
        )
    }
}

impl<V: View> StrMap<V> {
    pub fn new() -> (r: Self)
        ensures
            r@ == Map::<Seq<char>, V::V>::empty(),
    {
        let r = StrMap { pairs: Vec::new() };
        proof {
            assert(r@ =~= Map::<Seq<char>, V::V>::empty());
        }
        r
    }

    /// Binds `key` to `value`, shadowing any earlier binding.
    pub fn insert(&mut self, key: String, value: V)
        ensures
            final(self)@ == old(self)@.insert(key@, value@),
    {
        let ghost s = self.pairs@;
        let ghost gk = key@;
        let ghost gp = (key, value);
        self.pairs.push((key, value));
        proof {
            assert forall|k2: Seq<char>| true implies #[trigger] assoc_lookup(s.push(gp), k2)
                == if k2 == gk {
                Some(gp.1)
            } else {
                assoc_lookup(s, k2)
            } by {
                assert(s.push(gp).last() == gp);
                assert(s.push(gp).drop_last() =~= s);
            }
            assert(self@ =~= old(self)@.insert(gk, gp.1@));
        }
    }

    /// The value bound to `key`, if any.
    pub fn get(&self, key: &str) -> (r: Option<&V>)
        ensures
            r matches Some(v) ==> self@.contains_key(key@) && v@ == self@[key@],
            r is None ==> !self@.contains_key(key@),
    {
        let mut j: usize = self.pairs.len();
        proof {
            assert(self.pairs@.subrange(0, j as int) =~= self.pairs@);
        }
        while j > 0
            invariant
                j <= self.pairs@.len(),
                assoc_lookup(self.pairs@, key@) == assoc_lookup(
                    self.pairs@.subrange(0, j as int),
                    key@,
                ),
            decreases j,
        {
            let pr: &(String, V) = &self.pairs[j - 1];
            proof {
                let t = self.pairs@.subrange(0, j as int);
                assert(t.last() == self.pairs@[j - 1]);
                assert(t.drop_last() =~= self.pairs@.subrange(0, j - 1));
            }
            if crate::strutil::str_eq(pr.0.as_str(), key) {
                return Some(&pr.1);
            }
            j = j - 1;
        }
        proof {
            assert(self.pairs@.subrange(0, 0) =~= Seq::<(String, V)>::empty());
        }
        None
    }

    /// Whether `key` is bound.
    pub fn contains(&self, key: &str) -> (r: bool)
        ensures
            r == self@.contains_key(key@),
    {
        self.get(key).is_some()
    }

    /// Erases the binding of `key`, if any.
    pub fn remove(&mut self, key: &str)
        ensures
            final(self)@ == old(self)@.remove(key@),
    {
        let ghost orig = self.pairs@;
        let mut i: usize = self.pairs.len();
        while i > 0
            invariant
                i <= self.pairs@.len(),
                self.pairs@.len() <= orig.len(),
                self.pairs@.subrange(0, i as int) =~= orig.subrange(0, i as int),
                assoc_erase(self.pairs@, key@) == assoc_erase(orig, key@),
                forall|j: int|
                    i <= j < self.pairs@.len() ==> (#[trigger] self.pairs@[j]).0@ != key@,
            decreases i,
        {
            let pr: &(String, V) = &self.pairs[i - 1];
            let matched = crate::strutil::str_eq(pr.0.as_str(), key);
            if matched {
                let ghost before = self.pairs@;
                self.pairs.remove(i - 1);
                proof {
                    assert(self.pairs@ =~= before.subrange(0, i - 1) + before.subrange(
                        i as int,
                        before.len() as int,
                    ));
                    lemma_erase_remove_at(before, i - 1, key@);
                    assert(forall|j: int|
                        0 <= j < i - 1 ==> #[trigger] self.pairs@[j] == before.subrange(
                            0,
                            i as int,
                        )[j]);
                    assert(self.pairs@.subrange(0, i - 1) =~= orig.subrange(0, i - 1));
                }
            }
            i = i - 1;
        }
        proof {
            lemma_erase_no_match(self.pairs@, key@);
            assert forall|k2: Seq<char>| true implies #[trigger] assoc_lookup(self.pairs@, k2)
                == if k2 == key@ {
                None::<V>
            } else {
                assoc_lookup(orig, k2)
            } by {
                lemma_lookup_erase(orig, key@, k2);
            }
            assert(self@ =~= old(self)@.remove(key@));
        }
    }
}

} // verus!
