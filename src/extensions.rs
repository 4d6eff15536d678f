//! The capability store: at most one value under each key, where a key names
//! the type of the value kept under it.

use vstd::prelude::*;
use std::sync::Arc;

verus! {

/// A store of application values, one value per key.
///
/// Each key stands for one type: the caller derives it from the type of the
/// value, so that storing a second value of a type replaces the first.
pub struct Extensions<V> {
    keys: Vec<u64>,
    vals: Vec<V>,
}

impl<V> View for Extensions<V> {
    type V = Map<u64, V>;

    closed spec fn view(&self) -> Map<u64, V> {
        Map::new(
            |k: u64| self.keys@.contains(k),
            |k: u64| self.vals@[self.keys@.index_of(k)],
        )
    }
}

impl<V> Extensions<V> {
    /// Keys are unique and each has its value.
    pub closed spec fn wf(&self) -> bool {
        &&& self.keys@.len() == self.vals@.len()
        &&& self.keys@.no_duplicates()
    }

    /// Position of `k` among the keys, if it is there.
    fn find(&self, k: u64) -> (r: Option<usize>)
        ensures
            match r {
                Some(i) => i < self.keys@.len() && self.keys@[i as int] == k,
                None => !self.keys@.contains(k),
            },
    {
        let mut i: usize = 0;
        while i < self.keys.len()
            invariant
                i <= self.keys@.len(),
                forall|j: int| 0 <= j < i ==> self.keys@[j] != k,
            decreases self.keys@.len() - i,
        {
            if self.keys[i] == k {
                return Some(i);
            }
            i = i + 1;
        }
        None
    }

    proof fn lemma_index_of(&self, i: int)
        requires
            self.wf(),
            0 <= i < self.keys@.len(),
        ensures
            self.keys@.index_of(self.keys@[i]) == i,
    {
        let k = self.keys@[i];
        assert(self.keys@.contains(k));
        let j = self.keys@.index_of(k);
        assert(self.keys@[j] == k);
    }

    /// An empty store.
    pub fn new() -> (r: Self)
        ensures
            r.wf(),
            r@ == Map::<u64, V>::empty(),
    {
        let r = Extensions { keys: Vec::new(), vals: Vec::new() };
        assert(r@ =~= Map::<u64, V>::empty());
        r
    }

    /// Keeps `val` under `key`, and hands back the value that was there before.
    pub fn insert(&mut self, key: u64, val: V) -> (r: Option<V>)
        requires
            old(self).wf(),
        ensures
            final(self).wf(),
            final(self)@ == old(self)@.insert(key, val),
            r == (if old(self)@.contains_key(key) { Some(old(self)@[key]) } else { None }),
    {
        match self.find(key) {
            Some(i) => {
                let mut v = val;
                proof { self.lemma_index_of(i as int); }
                let ghost old_keys = self.keys@;
                let ghost old_vals = self.vals@;
                std::mem::swap(&mut self.vals[i], &mut v);
                proof {
                    assert(self.keys@ == old_keys);
                    assert(self.vals@ == old_vals.update(i as int, val));
                    assert forall|k: u64| #[trigger] self.keys@.contains(k) && k != key implies
                        self.keys@.index_of(k) != i by {
                        let j = self.keys@.index_of(k);
                        assert(self.keys@[j] == k);
                    };
                    self.lemma_index_of(i as int);
                    assert(self@ =~= old(self)@.insert(key, val));
                }
                Some(v)
            },
            None => {
                let ghost old_keys = self.keys@;
                let ghost old_vals = self.vals@;
                self.keys.push(key);
                self.vals.push(val);
                proof {
                    let n = old_keys.len() as int;
                    assert(self.keys@.no_duplicates()) by {
                        assert forall|a: int, b: int| 0 <= a < b < self.keys@.len() implies
                            self.keys@[a] != self.keys@[b] by {
                            if b == n {
                                assert(old_keys.contains(old_keys[a]));
                            }
                        };
                    };
                    assert forall|k: u64| #[trigger] old_keys.contains(k) implies
                        self.keys@.index_of(k) == old_keys.index_of(k) by {
                        let j = old_keys.index_of(k);
                        assert(self.keys@[j] == k);
                        assert(self.keys@.contains(k));
                        let j2 = self.keys@.index_of(k);
                        if j2 != j {
                            assert(self.keys@[j2] == k);
                        }
                    };
                    assert(self.keys@.index_of(key) == n) by {
                        assert(self.keys@[n] == key);
                        assert(self.keys@.contains(key));
                        let j2 = self.keys@.index_of(key);
                        if j2 != n {
                            assert(old_keys.contains(key));
                        }
                    };
                    assert(self.keys@ == old_keys.push(key));
                    assert(self.vals@ == old_vals.push(val));
                    assert forall|k: u64| #[trigger] self.keys@.contains(k) <==> (old_keys.contains(k) || k == key) by {
                        if self.keys@.contains(k) {
                            let j = self.keys@.index_of(k);
                            assert(self.keys@[j] == k);
                            if j < old_keys.len() {
                                assert(old_keys[j] == k);
                            }
                        }
                        if old_keys.contains(k) {
                            let j = old_keys.index_of(k);
                            assert(self.keys@[j] == k);
                        }
                        if k == key {
                            assert(self.keys@[old_keys.len() as int] == k);
                        }
                    };
                    assert forall|k: u64| #[trigger] old_keys.contains(k) implies
                        self.vals@[self.keys@.index_of(k)] == old_vals[old_keys.index_of(k)] by {
                        let j = old_keys.index_of(k);
                        assert(old_keys[j] == k);
                    };
                    assert(self@ =~= old(self)@.insert(key, val));
                }
                None
            },
        }
    }

    /// Whether a value is kept under `key`.
    pub fn contains(&self, key: u64) -> (r: bool)
        ensures
            r == self@.contains_key(key),
    {
        self.find(key).is_some()
    }

    /// The value kept under `key`, if any.
    pub fn get(&self, key: u64) -> (r: Option<&V>)
        requires
            self.wf(),
        ensures
            r == (if self@.contains_key(key) { Some(&self@[key]) } else { None }),
    {
        match self.find(key) {
            Some(i) => {
                proof { self.lemma_index_of(i as int); }
                Some(&self.vals[i])
            },
            None => None,
        }
    }

    /// A mutable reference to the value kept under `key`, if any; what is
    /// written through it is what the store then keeps under `key`.
    pub fn get_mut(&mut self, key: u64) -> (r: Option<&mut V>)
        requires
            old(self).wf(),
        ensures
            r is Some <==> old(self)@.contains_key(key),
            r is Some ==> *r->Some_0 == old(self)@[key],
            r is Some ==> final(self).wf() && final(self)@ == old(self)@.insert(key, *final(r->Some_0)),
            r is None ==> *final(self) == *old(self),
    {
        match self.find(key) {
            Some(i) => {
                proof { self.lemma_index_of(i as int); }
                Some(&mut self.vals[i])
            },
            None => None,
        }
    }

    /// Takes the value kept under `key` out of the store.
    pub fn remove(&mut self, key: u64) -> (r: Option<V>)
        requires
            old(self).wf(),
        ensures
            final(self).wf(),
            final(self)@ == old(self)@.remove(key),
            r == (if old(self)@.contains_key(key) { Some(old(self)@[key]) } else { None }),
    {
        match self.find(key) {
            Some(i) => {
                proof { self.lemma_index_of(i as int); }
                let ghost old_keys = self.keys@;
                let ghost old_vals = self.vals@;
                self.keys.remove(i);
                let v = self.vals.remove(i);
                proof {
                    let ii = i as int;
                    assert(self.keys@ == old_keys.remove(ii));
                    assert(self.keys@.no_duplicates()) by {
                        assert forall|a: int, b: int| 0 <= a < b < self.keys@.len() implies
                            self.keys@[a] != self.keys@[b] by {
                            let oa = if a < ii { a } else { a + 1 };
                            let ob = if b < ii { b } else { b + 1 };
                            assert(self.keys@[a] == old_keys[oa]);
                            assert(self.keys@[b] == old_keys[ob]);
                        };
                    };
                    assert forall|k: u64| #[trigger] self.keys@.contains(k) implies
                        k != key && old_keys.contains(k)
                        && self.vals@[self.keys@.index_of(k)] == old_vals[old_keys.index_of(k)] by {
                        let j = self.keys@.index_of(k);
                        assert(self.keys@[j] == k);
                        let oj = if j < ii { j } else { j + 1 };
                        assert(old_keys[oj] == k);
                        assert(old_keys.contains(k));
                        let oj2 = old_keys.index_of(k);
                        assert(old_keys[oj2] == k);
                        assert(oj2 == oj);
                    };
                    assert forall|k: u64| #[trigger] old_keys.contains(k) && k != key implies
                        self.keys@.contains(k) by {
                        let oj = old_keys.index_of(k);
                        assert(old_keys[oj] == k);
                        assert(oj != ii);
                        let j = if oj < ii { oj } else { oj - 1 };
                        assert(self.keys@[j] == k);
                    };
                    assert(self@ =~= old(self)@.remove(key));
                }
                Some(v)
            },
            None => {
                assert(self@ =~= old(self)@.remove(key));
                None
            },
        }
    }
}

/// Storing a value under the key of its type and then asking for that key
/// yields the value stored; asking for a key under which nothing was stored
/// yields nothing, and storing leaves the other keys as they were.
pub proof fn law_store_then_request<V>(store: Map<u64, V>, key: u64, val: V, other: u64)
    requires
        other != key,
    ensures
        store.insert(key, val).contains_key(key),
        store.insert(key, val)[key] == val,
        store.insert(key, val).contains_key(other) == store.contains_key(other),
        !store.contains_key(other) ==> !store.insert(key, val).contains_key(other),
{
}

/// Application data shared between handlers through a reference count.
#[derive(Debug)]
pub struct Data<T>(Arc<T>);

impl<T> Data<T> {
    /// Wraps `state` for sharing.
    pub fn new(state: T) -> (r: Data<T>)
        ensures
            r.value() == state,
    {
        Data(Arc::new(state))
    }

    /// The shared value.
    pub closed spec fn value(&self) -> T {
        *self.0
    }

    /// A reference to the shared value.
    pub fn get_ref(&self) -> (r: &T)
        ensures
            *r == self.value(),
    {
        &*self.0
    }

    /// Shares an existing reference-counted value.
    pub fn from_arc(arc: Arc<T>) -> (r: Data<T>)
        ensures
            r.value() == *arc,
    {
        Data(arc)
    }

    /// The reference-counted handle itself.
    pub fn into_inner(self) -> (r: Arc<T>)
        ensures
            *r == self.value(),
    {
        self.0
    }
}

impl<T> Clone for Data<T> {
    fn clone(&self) -> (r: Self)
        ensures
            r.value() == self.value(),
    {
        Data(share(&self.0))
    }
}

/// Relies on `Arc::clone`: a new handle to the same value.
#[verifier::external_body]
fn share<T>(a: &Arc<T>) -> (r: Arc<T>)
    ensures
        *r == **a,
{
    Arc::clone(a)
}

} // verus!
