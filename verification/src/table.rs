//! A keyed in-memory collection: rows held in insertion order, at most one
//! row per key. Lookup, overwrite-on-insert and removal are stated exactly
//! over the row sequence.
use vstd::prelude::*;

verus! {

/// An entity that is stored under a key of its own.
pub trait Keyed: Sized {
    spec fn key(&self) -> u128;

    fn key_exec(&self) -> (k: u128)
        ensures
            k == self.key(),
    ;
}

/// Some row of `s` carries the key `k`.
pub open spec fn has_key<T: Keyed>(s: Seq<T>, k: u128) -> bool {
    exists|i: int| 0 <= i < s.len() && #[trigger] s[i].key() == k
}

/// The index of the row carrying `k`; meaningful only when `has_key` holds
/// and the keys are distinct.
pub open spec fn key_index<T: Keyed>(s: Seq<T>, k: u128) -> int {
    choose|i: int| 0 <= i < s.len() && #[trigger] s[i].key() == k
}

/// No two rows share a key.
pub open spec fn distinct_keys<T: Keyed>(s: Seq<T>) -> bool {
    forall|i: int, j: int|
        0 <= i < j < s.len() ==> #[trigger] s[i].key() != #[trigger] s[j].key()
}

/// Under distinct keys, a row with key `k` at index `i` pins `key_index` to `i`.
pub proof fn lemma_key_index<T: Keyed>(s: Seq<T>, k: u128, i: int)
    requires
        distinct_keys(s),
        0 <= i < s.len(),
        s[i].key() == k,
    ensures
        has_key(s, k),
        key_index(s, k) == i,
{
    assert(has_key(s, k));
    let j = key_index(s, k);
    assert(0 <= j < s.len() && s[j].key() == k);
    if j < i {
        assert(s[j].key() != s[i].key());
    } else if i < j {
        assert(s[i].key() != s[j].key());
    }
}

/// A collection of rows with pairwise-distinct keys.
pub struct Table<T: Keyed> {
    pub rows: Vec<T>,
}

impl<T: Keyed> Table<T> {
    /// Every stored key occurs once.
    pub open spec fn wf(self) -> bool {
        distinct_keys(self.rows@)
    }

    pub fn new() -> (t: Self)
        ensures
            t.rows@ == Seq::<T>::empty(),
            t.wf(),
    {
        Table { rows: Vec::new() }
    }

    pub fn len(&self) -> (n: usize)
        ensures
            n == self.rows@.len(),
    {
        self.rows.len()
    }

    /// The index of the row keyed by `k`, if any.
    fn index_of(&self, k: u128) -> (r: Option<usize>)
        requires
            self.wf(),
        ensures
            match r {
                Some(i) => has_key(self.rows@, k) && key_index(self.rows@, k) == i as int,
                None => !has_key(self.rows@, k),
            },
    {
        let n = self.rows.len();
        let mut i: usize = 0;
        while i < n
            invariant
                n == self.rows@.len(),
                i <= n,
                self.wf(),
                forall|j: int| 0 <= j < i ==> #[trigger] self.rows@[j].key() != k,
            decreases n - i,
        {
            if self.rows[i].key_exec() == k {
                proof {
                    lemma_key_index(self.rows@, k, i as int);
                }
                return Some(i);
            }
            i = i + 1;
        }
        assert(!has_key(self.rows@, k));
        None
    }

    /// Look a row up by key.
    pub fn get(&self, k: u128) -> (r: Option<&T>)
        requires
            self.wf(),
        ensures
            match r {
                Some(t) => {
                    &&& has_key(self.rows@, k)
                    &&& 0 <= key_index(self.rows@, k) < self.rows@.len()
                    &&& *t == self.rows@[key_index(self.rows@, k)]
                    &&& t.key() == k
                },
                None => !has_key(self.rows@, k),
            },
    {
        match self.index_of(k) {
            Some(i) => Some(&self.rows[i]),
            None => None,
        }
    }

    /// Store `t` under its own key, overwriting the row already stored
    /// under that key, if any.
    pub fn insert(&mut self, t: T)
        requires
            old(self).wf(),
        ensures
            final(self).wf(),
            has_key(old(self).rows@, t.key()) ==> final(self).rows@ == old(self).rows@.update(
                key_index(old(self).rows@, t.key()),
                t,
            ),
            !has_key(old(self).rows@, t.key()) ==> final(self).rows@ == old(self).rows@.push(t),
    {
        let k = t.key_exec();
        match self.index_of(k) {
            Some(i) => {
                self.rows.set(i, t);
                proof {
                    let s0 = old(self).rows@;
                    let s1 = self.rows@;
                    let ix = key_index(s0, k);
                    assert forall|a: int, b: int| 0 <= a < b < s1.len() implies s1[a].key()
                        != s1[b].key() by {
                        assert(s0[a].key() != s0[b].key());
                        assert(s1[a].key() == if a == ix {
                            t.key()
                        } else {
                            s0[a].key()
                        });
                        assert(s1[b].key() == if b == ix {
                            t.key()
                        } else {
                            s0[b].key()
                        });
                        assert(s0[ix].key() == k);
                    }
                }
            },
            None => {
                self.rows.push(t);
                proof {
                    let s0 = old(self).rows@;
                    let s1 = self.rows@;
                    assert forall|a: int, b: int| 0 <= a < b < s1.len() implies s1[a].key()
                        != s1[b].key() by {
                        if b < s0.len() {
                            assert(s0[a].key() != s0[b].key());
                        } else {
                            assert(s1[b].key() == t.key());
                            assert(s1[a].key() == s0[a].key());
                        }
                    }
                }
            },
        }
    }

    /// Drop the row keyed by `k`; reports whether one was there.
    pub fn remove(&mut self, k: u128) -> (r: bool)
        requires
            old(self).wf(),
        ensures
            final(self).wf(),
            r == has_key(old(self).rows@, k),
            r ==> final(self).rows@ == old(self).rows@.remove(key_index(old(self).rows@, k)),
            !r ==> final(self).rows@ == old(self).rows@,
    {
        match self.index_of(k) {
            Some(i) => {
                self.rows.remove(i);
                proof {
                    let s0 = old(self).rows@;
                    let s1 = self.rows@;
                    let ix = i as int;
                    assert forall|a: int, b: int| 0 <= a < b < s1.len() implies s1[a].key()
                        != s1[b].key() by {
                        let a0: int = if a < ix {
                            a
                        } else {
                            a + 1
                        };
                        let b0: int = if b < ix {
                            b
                        } else {
                            b + 1
                        };
                        assert(s1[a] == s0[a0]);
                        assert(s1[b] == s0[b0]);
                        assert(s0[a0].key() != s0[b0].key());
                    }
                }
                true
            },
            None => false,
        }
    }
}

} // verus!
