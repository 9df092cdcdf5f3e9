//! A map keyed by device or transfer identifiers.
//!
//! Entries are kept in insertion order in two parallel vectors; no key
//! occurs twice.

use vstd::prelude::*;

verus! {

/// A finite map from strings to values.
pub struct Registry<V> {
    keys: Vec<String>,
    values: Vec<V>,
}

impl<V> Registry<V> {
    /// The keys, in insertion order.
    pub closed spec fn key_seq(&self) -> Seq<Seq<char>> {
        Seq::new(self.keys@.len(), |i: int| self.keys@[i]@)
    }

    /// Whether no key occurs twice and every key has its value.
    pub closed spec fn wf(&self) -> bool {
        &&& self.keys@.len() == self.values@.len()
        &&& self.key_seq().no_duplicates()
    }

    /// The map that the registry stands for.
    pub closed spec fn view(&self) -> Map<Seq<char>, V> {
        Map::new(
            |k: Seq<char>| self.key_seq().contains(k),
            |k: Seq<char>| self.values@[self.key_seq().index_of(k)],
        )
    }

    /// A well-formed registry holds as many entries as its map has keys.
    pub proof fn lemma_len(&self)
        requires
            self.wf(),
        ensures
            self@.dom().finite(),
            self@.dom().len() == self.key_seq().len(),
    {
        self.key_seq().unique_seq_to_set();
        assert(self@.dom() =~= self.key_seq().to_set());
    }

    /// An empty registry.
    pub fn new() -> (r: Registry<V>)
        ensures
            r.wf(),
            r@ == Map::<Seq<char>, V>::empty(),
    {
        let r = Registry { keys: Vec::new(), values: Vec::new() };
        assert(r@ =~= Map::<Seq<char>, V>::empty());
        r
    }

    fn find(&self, key: &str) -> (r: Option<usize>)
        requires
            self.wf(),
        ensures
            match r {
                Some(i) => i < self.keys@.len() && self.key_seq()[i as int] == key@
                    && self.key_seq().index_of(key@) == i,
                None => !self.key_seq().contains(key@),
            },
    {
        let needle: String = key.to_owned();
        let mut i: usize = 0;
        while i < self.keys.len()
            invariant
                self.wf(),
                i <= self.keys@.len(),
                needle@ == key@,
                forall|j: int| 0 <= j < i ==> self.key_seq()[j] != key@,
            decreases self.keys@.len() - i,
        {
            if self.keys[i] == needle {
                assert(self.key_seq()[i as int] == key@);
                let ghost j = self.key_seq().index_of(key@);
                assert(0 <= j < self.key_seq().len() && self.key_seq()[j] == key@);
                return Some(i);
            }
            i = i + 1;
        }
        None
    }

    /// Whether `key` has an entry.
    pub fn contains_key(&self, key: &str) -> (r: bool)
        requires
            self.wf(),
        ensures
            r == self@.contains_key(key@),
    {
        self.find(key).is_some()
    }

    /// The value under `key`, if there is one.
    pub fn get(&self, key: &str) -> (r: Option<&V>)
        requires
            self.wf(),
        ensures
            match r {
                Some(v) => self@.contains_key(key@) && self@[key@] == *v,
                None => !self@.contains_key(key@),
            },
    {
        match self.find(key) {
            Some(i) => Some(&self.values[i]),
            None => None,
        }
    }

    /// Puts `value` under `key`, in place of any value that was there.
    pub fn insert(&mut self, key: &str, value: V)
        requires
            old(self).wf(),
        ensures
            final(self).wf(),
            final(self)@ == old(self)@.insert(key@, value),
    {
        match self.find(key) {
            Some(i) => {
                self.values.set(i, value);
                assert(self.key_seq() =~= old(self).key_seq());
                assert(self@ =~= old(self)@.insert(key@, value));
            },
            None => {
                self.keys.push(key.to_owned());
                self.values.push(value);
                let ghost n = old(self).key_seq().len() as int;
                assert(self.key_seq() =~= old(self).key_seq().push(key@));
                assert(self.key_seq().no_duplicates());
                assert forall|k: Seq<char>| #[trigger]
                    old(self)@.insert(key@, value).contains_key(k) implies self@.contains_key(
                    k,
                ) && self@[k] == old(self)@.insert(key@, value)[k] by {
                    if k == key@ {
                        assert(self.key_seq()[n] == k);
                    } else {
                        let j = old(self).key_seq().index_of(k);
                        assert(self.key_seq()[j] == k);
                    }
                }
                assert(self@ =~= old(self)@.insert(key@, value));
            },
        }
    }

    /// Takes the entry under `key` out and returns its value, if there was
    /// one.
    pub fn remove(&mut self, key: &str) -> (r: Option<V>)
        requires
            old(self).wf(),
        ensures
            final(self).wf(),
            final(self)@ == old(self)@.remove(key@),
            match r {
                Some(v) => old(self)@.contains_key(key@) && old(self)@[key@] == v,
                None => !old(self)@.contains_key(key@),
            },
    {
        match self.find(key) {
            Some(i) => {
                self.keys.remove(i);
                let v = self.values.remove(i);
                assert(self.key_seq() =~= old(self).key_seq().remove(i as int));
                let ghost ks = old(self).key_seq();
                assert forall|a: int, b: int|
                    0 <= a < self.key_seq().len() && 0 <= b < self.key_seq().len() && a
                        != b implies self.key_seq()[a] != self.key_seq()[b] by {
                    let a0 = if a < i { a } else { a + 1 };
                    let b0 = if b < i { b } else { b + 1 };
                    assert(self.key_seq()[a] == ks[a0]);
                    assert(self.key_seq()[b] == ks[b0]);
                }
                assert forall|k: Seq<char>| #[trigger]
                    old(self)@.remove(key@).contains_key(k) implies self@.contains_key(k)
                    && self@[k] == old(self)@.remove(key@)[k] by {
                    let j = ks.index_of(k);
                    let j1 = if j < i { j } else { j - 1 };
                    assert(self.key_seq()[j1] == k);
                    let j2 = self.key_seq().index_of(k);
                    let j3 = if j2 < i { j2 } else { j2 + 1 };
                    assert(ks[j3] == k);
                }
                assert forall|k: Seq<char>| #[trigger]
                    self@.contains_key(k) implies old(self)@.remove(key@).contains_key(k) by {
                    let j2 = self.key_seq().index_of(k);
                    let j3 = if j2 < i { j2 } else { j2 + 1 };
                    assert(ks[j3] == k);
                }
                assert(self@ =~= old(self)@.remove(key@));
                Some(v)
            },
            None => {
                assert(self@ =~= old(self)@.remove(key@));
                None
            },
        }
    }

    /// Takes every entry out.
    pub fn clear(&mut self)
        ensures
            final(self).wf(),
            final(self)@ == Map::<Seq<char>, V>::empty(),
    {
        self.keys = Vec::new();
        self.values = Vec::new();
        assert(self@ =~= Map::<Seq<char>, V>::empty());
    }

    /// The values, in insertion order.
    pub fn values(&self) -> (r: &Vec<V>)
        requires
            self.wf(),
        ensures
            r@.len() == self@.dom().len(),
            r@.len() == self.key_seq().len(),
            forall|i: int| 0 <= i < r@.len() ==> self@.dom().contains(#[trigger] self.key_seq()[i])
                && self@[self.key_seq()[i]] == r@[i],
    {
        proof {
            self.lemma_len();
            assert forall|i: int| 0 <= i < self.values@.len() implies self@.dom().contains(
                #[trigger] self.key_seq()[i],
            ) && self@[self.key_seq()[i]] == self.values@[i] by {
                let k = self.key_seq()[i];
                let j = self.key_seq().index_of(k);
                assert(j == i);
            }
        }
        &self.values
    }

    /// The number of entries.
    pub fn len(&self) -> (r: usize)
        requires
            self.wf(),
        ensures
            r == self@.dom().len(),
    {
        proof {
            self.lemma_len();
        }
        self.keys.len()
    }
}

} // verus!
