//! Secrets kept by key.
use crate::error::BrowserError;
use vstd::prelude::*;

verus! {

/// A key and the secret stored under it.
pub open spec fn secret_view(e: (String, Vec<u8>)) -> (Seq<char>, Seq<u8>) {
    (e.0@, e.1@)
}

/// Secrets by key, one per key, in the order the keys were first stored.
pub struct SecureStorage {
    store: Vec<(String, Vec<u8>)>,
}

impl SecureStorage {
    pub closed spec fn spec_entries(&self) -> Seq<(Seq<char>, Seq<u8>)> {
        self.store@.map_values(|e: (String, Vec<u8>)| secret_view(e))
    }

    /// The secret stored under each key.
    pub open spec fn spec_map(&self) -> Map<Seq<char>, Seq<u8>> {
        Map::new(
            |k: Seq<char>| exists|i: int| 0 <= i < self.spec_entries().len() && #[trigger] self.spec_entries()[i].0 == k,
            |k: Seq<char>|
                self.spec_entries()[choose|i: int|
                    0 <= i < self.spec_entries().len() && #[trigger] self.spec_entries()[i].0 == k].1,
        )
    }

    /// No key is stored twice.
    pub open spec fn wf(&self) -> bool {
        forall|i: int, j: int|
            0 <= i < j < self.spec_entries().len() ==> (#[trigger] self.spec_entries()[i]).0
                != (#[trigger] self.spec_entries()[j]).0
    }

    /// Nothing stored.
    pub fn new() -> (r: SecureStorage)
        ensures
            r.wf(),
            r.spec_map() == Map::<Seq<char>, Seq<u8>>::empty(),
    {
        let r = SecureStorage { store: Vec::new() };
        assert(r.spec_map() =~= Map::<Seq<char>, Seq<u8>>::empty());
        r
    }

    fn find(&self, key: &str) -> (r: Option<usize>)
        ensures
            match r {
                Some(i) => i < self.spec_entries().len() && self.spec_entries()[i as int].0 == key@,
                None => forall|i: int| 0 <= i < self.spec_entries().len() ==> #[trigger] self.spec_entries()[i].0 != key@,
            },
    {
        let k = key.to_string();
        let mut i: usize = 0;
        while i < self.store.len()
            invariant
                0 <= i <= self.store@.len(),
                k@ == key@,
                forall|j: int| 0 <= j < i ==> #[trigger] self.spec_entries()[j].0 != key@,
            decreases self.store@.len() - i,
        {
            if self.store[i].0 == k {
                return Some(i);
            }
            i = i + 1;
        }
        None
    }

    /// Keep `value` under `key`, replacing what was there.
    pub fn store(&mut self, key: &str, value: Vec<u8>) -> (r: Result<(), BrowserError>)
        requires
            old(self).wf(),
        ensures
            final(self).wf(),
            r is Ok,
            final(self).spec_map() == old(self).spec_map().insert(key@, value@),
    {
        let ghost vv = value@;
        match self.find(key) {
            Some(i) => {
                self.store.set(i, (key.to_string(), value));
                proof {
                    assert(self.spec_entries() =~= old(self).spec_entries().update(i as int, (key@, vv)));
                    assert forall|a: int, b: int| 0 <= a < b < self.spec_entries().len() implies (
                    #[trigger] self.spec_entries()[a]).0 != (#[trigger] self.spec_entries()[b]).0 by {
                        assert(self.spec_entries()[a].0 == old(self).spec_entries()[a].0);
                        assert(self.spec_entries()[b].0 == old(self).spec_entries()[b].0);
                    }
                    self.lemma_map_of_unique();
                    old(self).lemma_map_of_unique();
                    assert forall|j: int| 0 <= j < old(self).spec_entries().len() && (#[trigger] old(self).spec_entries()[j]).0 != key@
                        implies self.spec_entries().contains(old(self).spec_entries()[j]) by {
                        assert(self.spec_entries()[j] == old(self).spec_entries()[j]);
                    }
                    assert(self.spec_entries()[i as int] == (key@, vv));
                    self.lemma_same_keys_as(*old(self), key@, vv);
                }
            },
            None => {
                self.store.push((key.to_string(), value));
                proof {
                    assert(self.spec_entries() =~= old(self).spec_entries().push((key@, vv)));
                    assert forall|a: int, b: int| 0 <= a < b < self.spec_entries().len() implies (
                    #[trigger] self.spec_entries()[a]).0 != (#[trigger] self.spec_entries()[b]).0 by {
                        assert(self.spec_entries()[a] == old(self).spec_entries()[a]);
                        if b < old(self).spec_entries().len() {
                            assert(self.spec_entries()[b] == old(self).spec_entries()[b]);
                        }
                    }
                    self.lemma_map_of_unique();
                    old(self).lemma_map_of_unique();
                    assert forall|j: int| 0 <= j < old(self).spec_entries().len() && (#[trigger] old(self).spec_entries()[j]).0 != key@
                        implies self.spec_entries().contains(old(self).spec_entries()[j]) by {
                        assert(self.spec_entries()[j] == old(self).spec_entries()[j]);
                    }
                    assert(self.spec_entries()[self.spec_entries().len() - 1] == (key@, vv));
                    self.lemma_same_keys_as(*old(self), key@, vv);
                }
            },
        }
        Ok(())
    }

    /// With no key stored twice, each stored key maps to its own secret.
    proof fn lemma_map_of_unique(&self)
        requires
            self.wf(),
        ensures
            forall|i: int| 0 <= i < self.spec_entries().len() ==> #[trigger] self.spec_map()[self.spec_entries()[i].0]
                == self.spec_entries()[i].1,
            forall|i: int| 0 <= i < self.spec_entries().len() ==> self.spec_map().contains_key(
                #[trigger] self.spec_entries()[i].0,
            ),
    {
        assert forall|i: int| 0 <= i < self.spec_entries().len() implies #[trigger] self.spec_map()[self.spec_entries()[i].0]
            == self.spec_entries()[i].1 by {
            let k = self.spec_entries()[i].0;
            let c = choose|c: int| 0 <= c < self.spec_entries().len() && #[trigger] self.spec_entries()[c].0 == k;
            if c < i {
                assert(self.spec_entries()[c].0 != self.spec_entries()[i].0);
            } else if c > i {
                assert(self.spec_entries()[i].0 != self.spec_entries()[c].0);
            }
        }
    }

    /// When every stored pair is a pair of `before` or `(key, value)`, and the other
    /// way round with the pair of `key` in `before` replaced, this map is the one
    /// of `before` with `key` set to `value`.
    proof fn lemma_same_keys_as(&self, before: SecureStorage, key: Seq<char>, value: Seq<u8>)
        requires
            self.wf(),
            before.wf(),
            forall|i: int| 0 <= i < self.spec_entries().len() ==> (#[trigger] self.spec_entries()[i] == (key, value)
                || (self.spec_entries()[i].0 != key && before.spec_entries().contains(self.spec_entries()[i]))),
            forall|i: int| 0 <= i < before.spec_entries().len() && (#[trigger] before.spec_entries()[i]).0 != key
                ==> self.spec_entries().contains(before.spec_entries()[i]),
            self.spec_entries().contains((key, value)),
        ensures
            self.spec_map() == before.spec_map().insert(key, value),
    {
        self.lemma_map_of_unique();
        before.lemma_map_of_unique();
        let m = before.spec_map().insert(key, value);
        assert forall|k: Seq<char>| #[trigger] self.spec_map().contains_key(k) <==> m.contains_key(k) by {
            if self.spec_map().contains_key(k) && k != key {
                let c = choose|c: int| 0 <= c < self.spec_entries().len() && #[trigger] self.spec_entries()[c].0 == k;
                let j = choose|j: int| 0 <= j < before.spec_entries().len() && before.spec_entries()[j] == self.spec_entries()[c];
                assert(before.spec_entries()[j].0 == k);
            }
            if m.contains_key(k) {
                if k == key {
                    let c = choose|c: int| 0 <= c < self.spec_entries().len() && self.spec_entries()[c] == (key, value);
                    assert(self.spec_entries()[c].0 == k);
                } else {
                    let j = choose|j: int| 0 <= j < before.spec_entries().len() && #[trigger] before.spec_entries()[j].0 == k;
                    let c = choose|c: int| 0 <= c < self.spec_entries().len() && self.spec_entries()[c] == before.spec_entries()[j];
                    assert(self.spec_entries()[c].0 == k);
                }
            }
        }
        assert forall|k: Seq<char>| #[trigger] self.spec_map().contains_key(k) implies self.spec_map()[k] == m[k] by {
            let c = choose|c: int| 0 <= c < self.spec_entries().len() && #[trigger] self.spec_entries()[c].0 == k;
            if k == key {
                let d = choose|d: int| 0 <= d < self.spec_entries().len() && self.spec_entries()[d] == (key, value);
                if c < d {
                    assert(self.spec_entries()[c].0 != self.spec_entries()[d].0);
                } else if c > d {
                    assert(self.spec_entries()[d].0 != self.spec_entries()[c].0);
                }
            } else {
                let j = choose|j: int| 0 <= j < before.spec_entries().len() && before.spec_entries()[j] == self.spec_entries()[c];
                assert(before.spec_map()[before.spec_entries()[j].0] == before.spec_entries()[j].1);
            }
        }
        assert(self.spec_map() =~= m);
    }

    /// The secret under `key`, if any.
    pub fn retrieve(&self, key: &str) -> (r: Option<&[u8]>)
        requires
            self.wf(),
        ensures
            r is Some <==> self.spec_map().contains_key(key@),
            r is Some ==> r->0@ == self.spec_map()[key@],
    {
        proof {
            self.lemma_map_of_unique();
        }
        match self.find(key) {
            Some(i) => {
                proof {
                    assert(self.spec_entries()[i as int].1 == self.store@[i as int].1@);
                }
                Some(self.store[i].1.as_slice())
            },
            None => None,
        }
    }

    /// Forget the secret under `key`, if any.
    pub fn remove(&mut self, key: &str) -> (r: Result<(), BrowserError>)
        requires
            old(self).wf(),
        ensures
            final(self).wf(),
            r is Ok,
            final(self).spec_map() == old(self).spec_map().remove(key@),
    {
        match self.find(key) {
            Some(i) => {
                self.store.remove(i);
                proof {
                    assert(self.spec_entries() =~= old(self).spec_entries().remove(i as int));
                    assert forall|a: int, b: int| 0 <= a < b < self.spec_entries().len() implies (
                    #[trigger] self.spec_entries()[a]).0 != (#[trigger] self.spec_entries()[b]).0 by {
                        let oa = if a < i { a } else { a + 1 };
                        let ob = if b < i { b } else { b + 1 };
                        assert(self.spec_entries()[a] == old(self).spec_entries()[oa]);
                        assert(self.spec_entries()[b] == old(self).spec_entries()[ob]);
                    }
                    self.lemma_map_of_unique();
                    old(self).lemma_map_of_unique();
                    assert forall|k: Seq<char>| #[trigger] self.spec_map().contains_key(k) <==> old(self).spec_map().remove(key@).contains_key(k) by {
                        if self.spec_map().contains_key(k) {
                            let c = choose|c: int| 0 <= c < self.spec_entries().len() && #[trigger] self.spec_entries()[c].0 == k;
                            let oc = if c < i { c } else { c + 1 };
                            assert(old(self).spec_entries()[oc].0 == k);
                        }
                        if old(self).spec_map().remove(key@).contains_key(k) {
                            let c = choose|c: int| 0 <= c < old(self).spec_entries().len() && #[trigger] old(self).spec_entries()[c].0 == k;
                            assert(c != i);
                            let nc = if c < i { c } else { c - 1 };
                            assert(self.spec_entries()[nc].0 == k);
                        }
                    }
                    assert forall|k: Seq<char>| #[trigger] self.spec_map().contains_key(k) implies self.spec_map()[k] == old(self).spec_map()[k] by {
                        let c = choose|c: int| 0 <= c < self.spec_entries().len() && #[trigger] self.spec_entries()[c].0 == k;
                        let oc = if c < i { c } else { c + 1 };
                        assert(old(self).spec_entries()[oc] == self.spec_entries()[c]);
                    }
                    assert(self.spec_map() =~= old(self).spec_map().remove(key@));
                }
            },
            None => {
                proof {
                    assert(!old(self).spec_map().contains_key(key@));
                    assert(self.spec_map() =~= old(self).spec_map().remove(key@));
                }
            },
        }
        Ok(())
    }

    /// Whether a secret is stored under `key`.
    pub fn contains(&self, key: &str) -> (r: bool)
        ensures
            r == self.spec_map().contains_key(key@),
    {
        self.find(key).is_some()
    }
}

impl Default for SecureStorage {
    fn default() -> (r: SecureStorage)
        ensures
            r.wf(),
            r.spec_map() == Map::<Seq<char>, Seq<u8>>::empty(),
    {
        SecureStorage::new()
    }
}

} // verus!
