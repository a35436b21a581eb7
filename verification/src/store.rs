//! A map from string keys to records that carry their own key, kept as a vector in which no
//! key occurs twice (the bookkeeping a `HashMap<String, _>` does for the bot).
use vstd::prelude::*;
use crate::text::str_eq;

verus! {

/// A record that names its own key.
pub trait Keyed {
    /// The key of the record.
    spec fn key_of(&self) -> Seq<char>;

    /// The key of the record, as a string.
    fn key(&self) -> (r: &String)
        ensures
            r@ == self.key_of(),
    ;
}

/// Records by key; inserting a record under a key that is present replaces the old one.
#[derive(Debug)]
pub struct KeyedStore<T: Keyed> {
    items: Vec<T>,
}

impl<T: Keyed> KeyedStore<T> {
    #[verifier::type_invariant]
    spec fn keys_distinct(self) -> bool {
        forall|i: int, j: int|
            0 <= i < j < self.items@.len() ==> #[trigger] self.items@[i].key_of()
                != #[trigger] self.items@[j].key_of()
    }

    /// Some record has key `k`.
    pub closed spec fn has(self, k: Seq<char>) -> bool {
        exists|i: int| 0 <= i < self.items@.len() && #[trigger] self.items@[i].key_of() == k
    }

    /// Where the record with key `k` stands.
    closed spec fn index_of(self, k: Seq<char>) -> int {
        choose|i: int| 0 <= i < self.items@.len() && #[trigger] self.items@[i].key_of() == k
    }

    /// The records by key.
    pub closed spec fn contents(self) -> Map<Seq<char>, T> {
        Map::new(|k: Seq<char>| self.has(k), |k: Seq<char>| self.items@[self.index_of(k)])
    }

    /// An empty store.
    pub fn new() -> (s: KeyedStore<T>)
        ensures
            s.contents() == Map::<Seq<char>, T>::empty(),
    {
        let s = KeyedStore { items: Vec::new() };
        proof {
            assert(s.contents() =~= Map::<Seq<char>, T>::empty());
        }
        s
    }

    /// Where a record with the key stands, if one does.
    fn find(&self, key: &str) -> (r: Option<usize>)
        ensures
            r matches Some(i) ==> i < self.items@.len() && self.items@[i as int].key_of() == key@,
            r is None ==> !self.has(key@),
    {
        let n = self.items.len();
        let mut i: usize = 0;
        while i < n
            invariant
                n == self.items@.len(),
                i <= n,
                forall|q: int| 0 <= q < i ==> #[trigger] self.items@[q].key_of() != key@,
            decreases n - i,
        {
            if str_eq(self.items[i].key().as_str(), key) {
                return Some(i);
            }
            i = i + 1;
        }
        None
    }

    /// The record with the key, if there is one.
    pub fn get(&self, key: &str) -> (r: Option<&T>)
        ensures
            r is Some <==> self.contents().contains_key(key@),
            r matches Some(x) ==> *x == self.contents()[key@],
    {
        proof {
            use_type_invariant(self);
        }
        match self.find(key) {
            Some(i) => {
                proof {
                    assert(self.has(key@));
                    let j = self.index_of(key@);
                    assert(self.items@[j].key_of() == key@);
                    assert(j == i);
                }
                Some(&self.items[i])
            },
            None => None,
        }
    }

    /// Puts the record under its key, replacing the record that was there.
    pub fn insert(&mut self, value: T)
        ensures
            final(self).contents() == old(self).contents().insert(value.key_of(), value),
    {
        proof {
            use_type_invariant(&*self);
        }
        let ghost old_store = *self;
        let found = self.find(value.key().as_str());
        let ghost k = value.key_of();
        match found {
            Some(i) => {
                let ghost v = value;
                let mut items: Vec<T> = Vec::new();
                std::mem::swap(&mut items, &mut self.items);
                items.set(i, value);
                proof {
                    assert forall|p: int, q: int|
                        0 <= p < q < items@.len() implies #[trigger] items@[p].key_of()
                        != #[trigger] items@[q].key_of() by {
                        assert(old_store.items@[p].key_of() != old_store.items@[q].key_of());
                    }
                }
                self.items = items;
                proof {
                    let new_store = *self;
                    assert(new_store.contents() =~= old_store.contents().insert(k, v)) by {
                        assert forall|key: Seq<char>|
                            new_store.has(key) == (old_store.has(key) || key == k) by {
                            if old_store.has(key) {
                                let q = old_store.index_of(key);
                                assert(new_store.items@[q].key_of() == key);
                            }
                            if new_store.has(key) {
                                let q = new_store.index_of(key);
                                assert(old_store.items@[q].key_of() == key);
                            }
                        }
                        assert forall|key: Seq<char>| #[trigger]
                            new_store.has(key) implies new_store.items@[new_store.index_of(key)]
                            == old_store.contents().insert(k, v)[key] by {
                            let q = new_store.index_of(key);
                            if key == k {
                                assert(q == i as int);
                            } else {
                                assert(old_store.items@[q].key_of() == key);
                                let p = old_store.index_of(key);
                                assert(p == q);
                            }
                        }
                    }
                }
            },
            None => {
                let ghost v = value;
                let mut items: Vec<T> = Vec::new();
                std::mem::swap(&mut items, &mut self.items);
                items.push(value);
                proof {
                    let n = old_store.items@.len();
                    assert forall|p: int, q: int|
                        0 <= p < q < items@.len() implies #[trigger] items@[p].key_of()
                        != #[trigger] items@[q].key_of() by {
                        if q == n as int {
                            assert(old_store.items@[p].key_of() != k);
                        } else {
                            assert(old_store.items@[p].key_of() != old_store.items@[q].key_of());
                        }
                    }
                }
                self.items = items;
                proof {
                    let new_store = *self;
                    let n = old_store.items@.len();
                    assert(new_store.contents() =~= old_store.contents().insert(k, v)) by {
                        assert forall|key: Seq<char>|
                            new_store.has(key) == (old_store.has(key) || key == k) by {
                            if old_store.has(key) {
                                let q = old_store.index_of(key);
                                assert(new_store.items@[q].key_of() == key);
                            }
                            if key == k {
                                assert(new_store.items@[n as int].key_of() == key);
                            }
                            if new_store.has(key) && key != k {
                                let q = new_store.index_of(key);
                                assert(q != n);
                                assert(old_store.items@[q].key_of() == key);
                            }
                        }
                        assert forall|key: Seq<char>| #[trigger]
                            new_store.has(key) implies new_store.items@[new_store.index_of(key)]
                            == old_store.contents().insert(k, v)[key] by {
                            let q = new_store.index_of(key);
                            if key == k {
                                if q != n as int {
                                    assert(old_store.items@[q].key_of() == k);
                                    assert(old_store.has(k));
                                }
                            } else {
                                assert(q != n as int);
                                assert(old_store.items@[q].key_of() == key);
                                let p = old_store.index_of(key);
                                assert(p == q);
                            }
                        }
                    }
                }
            },
        }
    }

    /// Removes every record.
    pub fn clear(&mut self)
        ensures
            final(self).contents() == Map::<Seq<char>, T>::empty(),
    {
        self.items = Vec::new();
        proof {
            assert(self.contents() =~= Map::<Seq<char>, T>::empty());
        }
    }

    /// How many records the store holds.
    pub fn len(&self) -> (n: usize)
        ensures
            n == 0 <==> self.contents() == Map::<Seq<char>, T>::empty(),
    {
        let n = self.items.len();
        proof {
            if n == 0 {
                assert(self.contents() =~= Map::<Seq<char>, T>::empty());
            } else {
                assert(self.contents().contains_key(self.items@[0].key_of()));
            }
        }
        n
    }
}

} // verus!
