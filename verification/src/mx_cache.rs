//! The mail-exchanger cache: domain to resolution outcome, unbounded, no
//! expiry, success and failure both remembered.

use vstd::prelude::*;
use crate::assoc::{
    distinct_keys, lemma_lookup_at, lemma_lookup_none, lemma_lookup_none_inv, lemma_lookup_push,
    lookup,
};

verus! {

/// Model of a resolution outcome.
pub ghost enum MxOutcomeModel {
    Failed,
    Records(Seq<Seq<char>>),
}

/// What resolving one domain produced: a resolver error, or the ordered
/// list of exchanger hostnames (possibly empty).
#[derive(Debug, Clone)]
pub enum MxOutcome {
    Failed,
    Records(Vec<String>),
}

impl View for MxOutcome {
    type V = MxOutcomeModel;

    open spec fn view(&self) -> MxOutcomeModel {
        match self {
            MxOutcome::Failed => MxOutcomeModel::Failed,
            MxOutcome::Records(v) => MxOutcomeModel::Records(v.deep_view()),
        }
    }
}

/// Cache of resolution outcomes, one per domain, kept for the process
/// lifetime.
pub struct MxCache {
    entries: Vec<(String, MxOutcome)>,
}

impl MxCache {
    /// The cached pairs of domain and outcome, oldest first.
    pub closed spec fn entries(self) -> Seq<(Seq<char>, MxOutcomeModel)> {
        self.entries@.map(|i: int, p: (String, MxOutcome)| (p.0@, p.1@))
    }

    /// Every domain is cached at most once.
    pub open spec fn wf(self) -> bool {
        distinct_keys(self.entries())
    }

    /// The outcome cached for a domain, if any.
    pub open spec fn spec_get(self, domain: Seq<char>) -> Option<MxOutcomeModel> {
        lookup(self.entries(), domain)
    }

    /// An empty cache.
    pub fn new() -> (r: MxCache)
        ensures
            r.wf(),
            r.entries() == Seq::<(Seq<char>, MxOutcomeModel)>::empty(),
    {
        let r = MxCache { entries: Vec::new() };
        proof {
            assert(r.entries() =~= Seq::<(Seq<char>, MxOutcomeModel)>::empty());
        }
        r
    }

    /// The cached outcome for `domain`, or `None` on a miss.
    pub fn get(&self, domain: &String) -> (r: Option<&MxOutcome>)
        requires
            self.wf(),
        ensures
            match r {
                None => self.spec_get(domain@) is None,
                Some(m) => self.spec_get(domain@) == Some(m@),
            },
    {
        let n = self.entries.len();
        let mut i: usize = 0;
        while i < n
            invariant
                n == self.entries@.len(),
                i <= n,
                forall|j: int| 0 <= j < i ==> self.entries()[j].0 != domain@,
            decreases n - i,
        {
            if self.entries[i].0 == *domain {
                proof {
                    lemma_lookup_at(self.entries(), domain@, i as int);
                }
                return Some(&self.entries[i].1);
            }
            i += 1;
        }
        proof {
            lemma_lookup_none(self.entries(), domain@);
        }
        None
    }

    /// Remember the outcome of a fresh resolution, success or failure
    /// alike.
    pub fn store(&mut self, domain: String, outcome: MxOutcome)
        requires
            old(self).wf(),
            old(self).spec_get(domain@) is None,
        ensures
            final(self).wf(),
            final(self).entries() == old(self).entries().push((domain@, outcome@)),
            final(self).spec_get(domain@) == Some(outcome@),
            forall|q: Seq<char>| q != domain@ ==> final(self).spec_get(q) == old(self).spec_get(
                q,
            ),
    {
        let ghost old_entries = self.entries();
        let ghost pair = (domain@, outcome@);
        proof {
            lemma_lookup_none_inv(old_entries, domain@);
        }
        self.entries.push((domain, outcome));
        proof {
            assert(self.entries() =~= old_entries.push(pair));
            lemma_lookup_push(old_entries, pair.0, pair.1, pair.0);
            assert forall|q: Seq<char>| q != pair.0 implies lookup(
                self.entries(),
                q,
            ) == lookup(old_entries, q) by {
                lemma_lookup_push(old_entries, pair.0, pair.1, q);
            }
        }
    }
}

} // verus!
