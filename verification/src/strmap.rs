//! A verified map from string keys to values, stored as a vector of
//! key/value pairs with pairwise-distinct keys. Both the cache store
//! and the debounce ledger are built on it.

use vstd::prelude::*;
use crate::text::str_eq;

verus! {

/// Pairwise-distinct keys, compared by their character sequences.
pub open spec fn distinct_keys<V>(s: Seq<(String, V)>) -> bool {
    forall|i: int, j: int| 0 <= i < j < s.len() ==> s[i].0@ != s[j].0@
}

/// The map denoted by a sequence of key/value pairs; later pairs win.
pub open spec fn map_of<V>(s: Seq<(String, V)>) -> Map<Seq<char>, V>
    decreases s.len(),
{
    if s.len() == 0 {
        Map::empty()
    } else {
        map_of(s.drop_last()).insert(s.last().0@, s.last().1)
    }
}

proof fn lemma_map_of_props<V>(s: Seq<(String, V)>)
    requires
        distinct_keys(s),
    ensures
        forall|k: Seq<char>| #[trigger] map_of(s).contains_key(k)
            ==> exists|i: int| 0 <= i < s.len() && s[i].0@ == k,
        forall|i: int| 0 <= i < s.len()
            ==> map_of(s).contains_key(#[trigger] s[i].0@) && map_of(s)[s[i].0@] == s[i].1,
    decreases s.len(),
{
    if s.len() > 0 {
        let s0 = s.drop_last();
        assert(distinct_keys(s0)) by {
            assert(forall|i: int| 0 <= i < s0.len() ==> s0[i] == s[i]);
        }
        lemma_map_of_props(s0);
        assert forall|i: int| 0 <= i < s.len()
            implies map_of(s).contains_key(#[trigger] s[i].0@) && map_of(s)[s[i].0@] == s[i].1 by {
            if i < s.len() - 1 {
                assert(s0[i] == s[i]);
                assert(s[i].0@ != s[s.len() - 1].0@);
                assert(map_of(s0).contains_key(s[i].0@) && map_of(s0)[s[i].0@] == s[i].1);
            } else {
                assert(s[i] == s.last());
            }
        }
        assert forall|k: Seq<char>| #[trigger] map_of(s).contains_key(k)
            implies exists|i: int| 0 <= i < s.len() && s[i].0@ == k by {
            if k == s.last().0@ {
                assert(s[s.len() - 1].0@ == k);
            } else {
                assert(map_of(s0).contains_key(k));
                let i = choose|i: int| 0 <= i < s0.len() && s0[i].0@ == k;
                assert(s[i].0@ == k);
            }
        }
    }
}

proof fn lemma_map_of_remove<V>(s: Seq<(String, V)>, i: int)
    requires
        distinct_keys(s),
        0 <= i < s.len(),
    ensures
        distinct_keys(s.remove(i)),
        forall|j: int| 0 <= j < s.remove(i).len() ==> #[trigger] s.remove(i)[j].0@ != s[i].0@,
        map_of(s.remove(i)) == map_of(s).remove(s[i].0@),
{
    let s2 = s.remove(i);
    s.remove_ensures(i);
    assert forall|a: int, b: int| 0 <= a < b < s2.len() implies s2[a].0@ != s2[b].0@ by {
        let a1: int = if a < i { a } else { a + 1 };
        let b1: int = if b < i { b } else { b + 1 };
        assert(s2[a] == s[a1]);
        assert(s2[b] == s[b1]);
    }
    assert forall|j: int| 0 <= j < s2.len() implies #[trigger] s2[j].0@ != s[i].0@ by {
        let j1: int = if j < i { j } else { j + 1 };
        assert(s2[j] == s[j1]);
    }
    lemma_map_of_props(s);
    lemma_map_of_props(s2);
    assert forall|k: Seq<char>| #[trigger] map_of(s2).contains_key(k)
        implies map_of(s).remove(s[i].0@).contains_key(k) && map_of(s).remove(s[i].0@)[k]
            == map_of(s2)[k] by {
        let j = choose|j: int| 0 <= j < s2.len() && s2[j].0@ == k;
        let j1: int = if j < i { j } else { j + 1 };
        assert(s2[j] == s[j1]);
        assert(map_of(s).contains_key(k) && map_of(s)[k] == s[j1].1);
        assert(map_of(s2)[k] == s2[j].1);
    }
    assert forall|k: Seq<char>| #[trigger] map_of(s).remove(s[i].0@).contains_key(k)
        implies map_of(s2).contains_key(k) by {
        assert(map_of(s).contains_key(k) && k != s[i].0@);
        let j = choose|j: int| 0 <= j < s.len() && s[j].0@ == k;
        assert(j != i);
        let j2: int = if j < i { j } else { j - 1 };
        assert(s2[j2] == s[j]);
        assert(s2[j2].0@ == k);
    }
    assert(map_of(s2) =~= map_of(s).remove(s[i].0@));
}

/// A map from string keys to values of type `V`.
pub struct StrMap<V> {
    pairs: Vec<(String, V)>,
}

impl<V> View for StrMap<V> {
    type V = Map<Seq<char>, V>;

    closed spec fn view(&self) -> Map<Seq<char>, V> {
        map_of(self.pairs@)
    }
}

impl<V> StrMap<V> {
    /// Internal well-formedness: the stored keys are pairwise distinct.
    pub closed spec fn wf(&self) -> bool {
        distinct_keys(self.pairs@)
    }

    /// An empty map.
    pub fn new() -> (r: Self)
        ensures
            r.wf(),
            r@ == Map::<Seq<char>, V>::empty(),
    {
        StrMap { pairs: Vec::new() }
    }

    fn find_index(&self, key: &str) -> (r: Option<usize>)
        ensures
            match r {
                Some(i) => i < self.pairs@.len() && self.pairs@[i as int].0@ == key@,
                None => forall|j: int| 0 <= j < self.pairs@.len()
                    ==> #[trigger] self.pairs@[j].0@ != key@,
            },
    {
        let n = self.pairs.len();
        let mut i: usize = 0;
        while i < n
            invariant
                n == self.pairs@.len(),
                0 <= i <= n,
                forall|j: int| 0 <= j < i ==> #[trigger] self.pairs@[j].0@ != key@,
            decreases n - i,
        {
            let p = &self.pairs[i];
            if str_eq(p.0.as_str(), key) {
                return Some(i);
            }
            i = i + 1;
        }
        None
    }

    /// Point lookup: a reference to the value stored under `key`, if any.
    pub fn get(&self, key: &str) -> (r: Option<&V>)
        requires
            self.wf(),
        ensures
            match r {
                Some(v) => self@.contains_key(key@) && *v == self@[key@],
                None => !self@.contains_key(key@),
            },
    {
        proof {
            lemma_map_of_props(self.pairs@);
        }
        match self.find_index(key) {
            Some(i) => Some(&self.pairs[i].1),
            None => {
                proof {
                    if map_of(self.pairs@).contains_key(key@) {
                        let i = choose|i: int|
                            0 <= i < self.pairs@.len() && self.pairs@[i].0@ == key@;
                        assert(self.pairs@[i].0@ != key@);
                    }
                }
                None
            },
        }
    }

    /// Point insert: stores `value` under `key`, replacing any previous
    /// value unconditionally.
    pub fn insert(&mut self, key: &str, value: V)
        requires
            old(self).wf(),
        ensures
            final(self).wf(),
            final(self)@ == old(self)@.insert(key@, value),
    {
        let ghost s_old = self.pairs@;
        match self.find_index(key) {
            Some(i) => {
                proof {
                    lemma_map_of_remove(self.pairs@, i as int);
                }
                let _ = self.pairs.remove(i);
                let ghost s_mid = self.pairs@;
                self.pairs.push((key.to_owned(), value));
                proof {
                    let s_new = self.pairs@;
                    assert(s_new.drop_last() =~= s_mid);
                    assert(map_of(s_new) == map_of(s_mid).insert(key@, value));
                    assert forall|a: int, b: int| 0 <= a < b < s_new.len()
                        implies s_new[a].0@ != s_new[b].0@ by {
                        if b < s_new.len() - 1 {
                            assert(s_new[a] == s_mid[a] && s_new[b] == s_mid[b]);
                        } else {
                            assert(s_new[a] == s_mid[a]);
                            assert(s_mid[a].0@ != s_old[i as int].0@);
                        }
                    }
                    assert(map_of(s_new) =~= map_of(s_old).insert(key@, value));
                }
            },
            None => {
                let ghost s_mid = self.pairs@;
                self.pairs.push((key.to_owned(), value));
                proof {
                    let s_new = self.pairs@;
                    assert(s_new.drop_last() =~= s_mid);
                    assert(map_of(s_new) == map_of(s_mid).insert(key@, value));
                    assert forall|a: int, b: int| 0 <= a < b < s_new.len()
                        implies s_new[a].0@ != s_new[b].0@ by {
                        if b < s_new.len() - 1 {
                            assert(s_new[a] == s_mid[a] && s_new[b] == s_mid[b]);
                        } else {
                            assert(s_new[a] == s_mid[a]);
                        }
                    }
                }
            },
        }
    }

    /// Point removal: drops the entry stored under `key`; a no-op when
    /// the key is absent.
    pub fn remove(&mut self, key: &str)
        requires
            old(self).wf(),
        ensures
            final(self).wf(),
            final(self)@ == old(self)@.remove(key@),
    {
        match self.find_index(key) {
            Some(i) => {
                proof {
                    lemma_map_of_remove(self.pairs@, i as int);
                }
                let _ = self.pairs.remove(i);
            },
            None => {
                proof {
                    lemma_map_of_props(self.pairs@);
                    if map_of(self.pairs@).contains_key(key@) {
                        let i = choose|i: int|
                            0 <= i < self.pairs@.len() && self.pairs@[i].0@ == key@;
                        assert(self.pairs@[i].0@ != key@);
                    }
                    assert(map_of(self.pairs@) =~= map_of(self.pairs@).remove(key@));
                }
            },
        }
    }
}

} // verus!
