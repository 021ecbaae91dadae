//! The final-verdict cache: bounded capacity, least-recently-used
//! eviction, and a write filter that never persists an Unknown verdict.

use vstd::prelude::*;
use crate::assoc::{
    distinct_keys, lemma_lookup_at, lemma_lookup_distinct_at, lemma_lookup_none,
    lemma_lookup_none_inv, lemma_lookup_push, lookup,
};
use crate::response::{EmailCheckResponse, ResponseModel};
use crate::verdict::MyReachable;

verus! {

/// The capacity a result cache is given when the caller names none.
pub const DEFAULT_RESULT_CAPACITY: usize = 100;

/// Memoized verification results, keyed by normalized address.  Entries
/// are kept in recency order: the front is the least recently used and
/// is the one evicted when the cache is full.
pub struct ResultCache {
    entries: Vec<(String, EmailCheckResponse)>,
    capacity: usize,
}

impl ResultCache {
    /// The cached pairs of address and result, least recently used
    /// first.
    pub closed spec fn entries(self) -> Seq<(Seq<char>, ResponseModel)> {
        self.entries@.map(|i: int, p: (String, EmailCheckResponse)| (p.0@, p.1@))
    }

    /// The bound on how many results are kept.
    pub closed spec fn spec_capacity(self) -> nat {
        self.capacity as nat
    }

    /// Addresses are distinct, the bound holds, and no entry carries an
    /// Unknown verdict.
    pub open spec fn wf(self) -> bool {
        &&& distinct_keys(self.entries())
        &&& self.entries().len() <= self.spec_capacity()
        &&& self.spec_capacity() >= 1
        &&& forall|i: int|
            0 <= i < self.entries().len() ==> self.entries()[i].1.is_reachable
                != MyReachable::Unknown
    }

    /// The result cached for an address, if any.
    pub open spec fn spec_get(self, key: Seq<char>) -> Option<ResponseModel> {
        lookup(self.entries(), key)
    }

    /// An empty cache holding at most `capacity` results.
    pub fn new(capacity: usize) -> (r: ResultCache)
        requires
            capacity >= 1,
        ensures
            r.wf(),
            r.entries() == Seq::<(Seq<char>, ResponseModel)>::empty(),
            r.spec_capacity() == capacity,
    {
        let r = ResultCache { entries: Vec::new(), capacity };
        proof {
            assert(r.entries() =~= Seq::<(Seq<char>, ResponseModel)>::empty());
        }
        r
    }

    /// An empty cache with the default capacity.
    pub fn with_default_capacity() -> (r: ResultCache)
        ensures
            r.wf(),
            r.entries() == Seq::<(Seq<char>, ResponseModel)>::empty(),
            r.spec_capacity() == DEFAULT_RESULT_CAPACITY,
    {
        ResultCache::new(DEFAULT_RESULT_CAPACITY)
    }

    /// The bound on how many results are kept.
    pub fn capacity(&self) -> (r: usize)
        ensures
            r == self.spec_capacity(),
    {
        self.capacity
    }

    /// How many results are cached now.
    pub fn len(&self) -> (r: usize)
        ensures
            r == self.entries().len(),
    {
        self.entries.len()
    }

    /// The cached result for an address, marking it most recently used;
    /// `None` on a miss.  A hit changes only the recency order: every
    /// address still maps to the same result.
    pub fn get(&mut self, key: &String) -> (r: Option<EmailCheckResponse>)
        requires
            old(self).wf(),
        ensures
            final(self).wf(),
            final(self).spec_capacity() == old(self).spec_capacity(),
            match r {
                None => {
                    &&& old(self).spec_get(key@) is None
                    &&& final(self).entries() == old(self).entries()
                },
                Some(v) => {
                    &&& old(self).spec_get(key@) == Some(v@)
                    &&& exists|i: int|
                        0 <= i < old(self).entries().len() && old(self).entries()[i] == (
                        key@,
                        v@,
                        ) && final(self).entries() == old(self).entries().remove(i).push(
                            (key@, v@),
                        )
                },
            },
            forall|q: Seq<char>| final(self).spec_get(q) == old(self).spec_get(q),
    {
        let ghost s0 = self.entries();
        let n = self.entries.len();
        let mut i: usize = 0;
        while i < n
            invariant
                old(self).wf(),
                *self == *old(self),
                n == self.entries@.len(),
                i <= n,
                self.entries() == s0,
                forall|j: int| 0 <= j < i ==> s0[j].0 != key@,
            decreases n - i,
        {
            if self.entries[i].0 == *key {
                proof {
                    lemma_lookup_at(s0, key@, i as int);
                }
                let pair = self.entries.remove(i);
                let result = pair.1.duplicate();
                self.entries.push(pair);
                proof {
                    assert(s0[i as int] == (key@, result@));
                    assert(self.entries() =~= s0.remove(i as int).push(s0[i as int]));
                    self.lemma_touch_preserves(s0, i as int);
                }
                return Some(result);
            }
            i += 1;
        }
        proof {
            lemma_lookup_none(s0, key@);
        }
        None
    }

    /// Every address maps to the same result after a pair is moved to
    /// the back, and well-formedness is kept.
    proof fn lemma_touch_preserves(self, s0: Seq<(Seq<char>, ResponseModel)>, i: int)
        requires
            distinct_keys(s0),
            s0.len() <= self.spec_capacity(),
            self.spec_capacity() >= 1,
            forall|j: int| 0 <= j < s0.len() ==> s0[j].1.is_reachable != MyReachable::Unknown,
            0 <= i < s0.len(),
            self.entries() == s0.remove(i).push(s0[i]),
        ensures
            self.wf(),
            forall|q: Seq<char>| lookup(self.entries(), q) == lookup(s0, q),
    {
        let s1 = self.entries();
        assert(s1.len() == s0.len());
        assert forall|a: int| 0 <= a < s1.len() implies s1[a].1.is_reachable
            != MyReachable::Unknown by {
            if a == s1.len() - 1 {
                assert(s1[a] == s0[i]);
            } else if a < i {
                assert(s1[a] == s0[a]);
            } else {
                assert(s1[a] == s0[a + 1]);
            }
        }
        assert forall|a: int, b: int| 0 <= a < b < s1.len() implies s1[a].0 != s1[b].0 by {
            let oa = if a < i {
                a
            } else if a == s1.len() - 1 {
                i
            } else {
                a + 1
            };
            let ob = if b < i {
                b
            } else if b == s1.len() - 1 {
                i
            } else {
                b + 1
            };
            assert(s1[a] == s0[oa]);
            assert(s1[b] == s0[ob]);
            assert(oa != ob);
        }
        assert forall|q: Seq<char>| lookup(s1, q) == lookup(s0, q) by {
            if exists|j: int| 0 <= j < s0.len() && s0[j].0 == q {
                let j = choose|j: int| 0 <= j < s0.len() && s0[j].0 == q;
                lemma_lookup_distinct_at(s0, q, j);
                let a = if j == i {
                    s1.len() - 1
                } else if j < i {
                    j
                } else {
                    j - 1
                };
                assert(s1[a] == s0[j]);
                lemma_lookup_distinct_at(s1, q, a);
            } else {
                lemma_lookup_none(s0, q);
                assert forall|a: int| 0 <= a < s1.len() implies s1[a].0 != q by {
                    if a == s1.len() - 1 {
                        assert(s1[a] == s0[i]);
                    } else if a < i {
                        assert(s1[a] == s0[a]);
                    } else {
                        assert(s1[a] == s0[a + 1]);
                    }
                }
                lemma_lookup_none(s1, q);
            }
        }
    }

    /// A well-formed cache holds no Unknown verdict under any address:
    /// every cached result carries one of the four settled verdicts.
    pub proof fn lemma_cached_verdicts_are_settled(self, q: Seq<char>)
        requires
            self.wf(),
        ensures
            self.spec_get(q) matches Some(m) ==> m.is_reachable != MyReachable::Unknown,
    {
        if let Some(m) = self.spec_get(q) {
            crate::assoc::lemma_lookup_some_inv(self.entries(), q, m);
        }
    }

    /// Remember a freshly computed result.  An Unknown verdict is never
    /// stored; otherwise the pair is appended as most recent, and when
    /// the cache is already full the least recently used entry — the
    /// front — is evicted, and nothing else.
    pub fn store(&mut self, key: String, value: EmailCheckResponse)
        requires
            old(self).wf(),
            old(self).spec_get(key@) is None,
        ensures
            final(self).wf(),
            final(self).spec_capacity() == old(self).spec_capacity(),
            value@.is_reachable == MyReachable::Unknown ==> final(self).entries() == old(
                self,
            ).entries(),
            value@.is_reachable != MyReachable::Unknown && old(self).entries().len() < old(
                self,
            ).spec_capacity() ==> final(self).entries() == old(self).entries().push(
                (key@, value@),
            ),
            value@.is_reachable != MyReachable::Unknown && old(self).entries().len() == old(
                self,
            ).spec_capacity() ==> final(self).entries() == old(self).entries().drop_first().push(
                (key@, value@),
            ),
            value@.is_reachable != MyReachable::Unknown ==> final(self).spec_get(key@) == Some(
                value@,
            ),
    {
        if matches!(value.is_reachable, MyReachable::Unknown) {
            return ;
        }
        let ghost s0 = self.entries();
        proof {
            lemma_lookup_none_inv(s0, key@);
        }
        if self.entries.len() == self.capacity {
            let _evicted = self.entries.remove(0);
            proof {
                let s1 = self.entries();
                assert(s1 =~= s0.drop_first());
                assert forall|j: int| 0 <= j < s1.len() implies s1[j] == s0[j + 1] by {}
                lemma_lookup_none(s1, key@);
            }
        }
        let ghost s2 = self.entries();
        let ghost pair = (key@, value@);
        self.entries.push((key, value));
        proof {
            assert(self.entries() =~= s2.push(pair));
            lemma_lookup_push(s2, pair.0, pair.1, pair.0);
        }
    }
}

} // verus!
