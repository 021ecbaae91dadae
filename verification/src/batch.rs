//! The batch dispatcher: one request per input address, results slotted
//! back in input order whatever order the runs complete in, and summary
//! statistics over the finished list.

use vstd::prelude::*;
use crate::request::{EmailCheckInput, InputModel};
use crate::response::{EmailCheckResponse, ResponseModel};
use crate::verdict::MyReachable;

verus! {

/// How many results of a list carry the given verdict.
pub open spec fn count_verdict(s: Seq<ResponseModel>, v: MyReachable) -> nat
    decreases s.len(),
{
    if s.len() == 0 {
        0
    } else {
        count_verdict(s.drop_last(), v) + if s.last().is_reachable == v {
            1nat
        } else {
            0nat
        }
    }
}

/// Summary counts over a finished batch, one per verdict plus the
/// total.
#[derive(Clone, Copy, Debug, PartialEq, Eq, Structural)]
pub struct Stats {
    pub risky: usize,
    pub safe: usize,
    pub invalid: usize,
    pub unknown: usize,
    pub banned: usize,
    pub total: usize,
}

impl Stats {
    /// The five counts of a result list, with the total equal to its
    /// length.
    pub open spec fn counts(self, items: Seq<ResponseModel>) -> bool {
        &&& self.safe == count_verdict(items, MyReachable::Safe)
        &&& self.risky == count_verdict(items, MyReachable::Risky)
        &&& self.invalid == count_verdict(items, MyReachable::Invalid)
        &&& self.unknown == count_verdict(items, MyReachable::Unknown)
        &&& self.banned == count_verdict(items, MyReachable::Banned)
        &&& self.total == items.len()
    }

    /// A record with the given counts.
    pub fn new(risky: usize, safe: usize, invalid: usize, unknown: usize, banned: usize, total:
        usize) -> (r: Stats)
        ensures
            r == (Stats { risky, safe, invalid, unknown, banned, total }),
    {
        Stats { risky, safe, invalid, unknown, banned, total }
    }
}

/// Count the verdicts of a finished batch in one pass.  The total is
/// the number of results and equals the sum of the five per-verdict
/// counts.
pub fn tally(items: &Vec<EmailCheckResponse>) -> (s: Stats)
    ensures
        s.counts(items.deep_view()),
        s.total == s.safe + s.risky + s.invalid + s.unknown + s.banned,
{
    let mut s = Stats::new(0, 0, 0, 0, 0, 0);
    proof {
        assert(items.deep_view().take(0) =~= Seq::<ResponseModel>::empty());
    }
    let mut i: usize = 0;
    while i < items.len()
        invariant
            i <= items@.len(),
            items@.len() == items.deep_view().len(),
            s.safe == count_verdict(items.deep_view().take(i as int), MyReachable::Safe),
            s.risky == count_verdict(items.deep_view().take(i as int), MyReachable::Risky),
            s.invalid == count_verdict(items.deep_view().take(i as int), MyReachable::Invalid),
            s.unknown == count_verdict(items.deep_view().take(i as int), MyReachable::Unknown),
            s.banned == count_verdict(items.deep_view().take(i as int), MyReachable::Banned),
            s.total == i,
            s.safe + s.risky + s.invalid + s.unknown + s.banned == i,
        decreases items@.len() - i,
    {
        proof {
            let cur = items.deep_view().take(i as int + 1);
            assert(cur.drop_last() =~= items.deep_view().take(i as int));
            assert(cur.last() == items.deep_view()[i as int]);
        }
        match items[i].is_reachable {
            MyReachable::Safe => s.safe = s.safe + 1,
            MyReachable::Risky => s.risky = s.risky + 1,
            MyReachable::Invalid => s.invalid = s.invalid + 1,
            MyReachable::Unknown => s.unknown = s.unknown + 1,
            MyReachable::Banned => s.banned = s.banned + 1,
        }
        s.total = s.total + 1;
        i += 1;
    }
    proof {
        assert(items.deep_view().take(items@.len() as int) =~= items.deep_view());
    }
    s
}

/// The ordered results of a batch and their summary counts.
#[derive(Debug)]
pub struct BatchResult {
    pub items: Vec<EmailCheckResponse>,
    pub stats: Stats,
}

/// The model of a list of result slots.
pub open spec fn slots_model(s: Seq<Option<EmailCheckResponse>>) -> Seq<Option<ResponseModel>> {
    s.map(
        |i: int, o: Option<EmailCheckResponse>|
            match o {
                Some(v) => Some(v@),
                None => None,
            },
    )
}

/// One verification request per input address and one result slot per
/// request.  Runs may complete in any order; each result is recorded
/// under its input position, and the finished list is read out in input
/// order.
pub struct BatchDispatcher {
    requests: Vec<EmailCheckInput>,
    slots: Vec<Option<EmailCheckResponse>>,
}

impl BatchDispatcher {
    /// The per-address requests, in input order.
    pub closed spec fn spec_requests(self) -> Seq<InputModel> {
        self.requests.deep_view()
    }

    /// The result slots, in input order.
    pub closed spec fn spec_slots(self) -> Seq<Option<ResponseModel>> {
        slots_model(self.slots@)
    }

    /// One slot per request.
    pub open spec fn wf(self) -> bool {
        self.spec_slots().len() == self.spec_requests().len()
    }

    /// The request owed for the address at one input position: that
    /// address alone, with the shared options.
    pub open spec fn request_for(address: Seq<char>, shared: InputModel) -> InputModel {
        InputModel {
            to_emails: seq![address],
            from_email: shared.from_email,
            hello_name: shared.hello_name,
            smtp_timeout: shared.smtp_timeout,
            yahoo_use_api: shared.yahoo_use_api,
        }
    }

    /// Build one request per address, inheriting the shared options;
    /// every result slot starts empty.
    pub fn new(addresses: &Vec<String>, shared: &EmailCheckInput) -> (b: BatchDispatcher)
        ensures
            b.wf(),
            b.spec_requests().len() == addresses@.len(),
            forall|i: int|
                0 <= i < addresses@.len() ==> b.spec_requests()[i] == Self::request_for(
                    addresses.deep_view()[i],
                    shared@,
                ),
            forall|i: int| 0 <= i < b.spec_slots().len() ==> b.spec_slots()[i] is None,
    {
        let mut requests: Vec<EmailCheckInput> = Vec::new();
        let mut slots: Vec<Option<EmailCheckResponse>> = Vec::new();
        let mut i: usize = 0;
        while i < addresses.len()
            invariant
                i <= addresses@.len(),
                requests.deep_view().len() == i,
                slots@.len() == i,
                forall|j: int|
                    0 <= j < i ==> requests.deep_view()[j] == Self::request_for(
                        addresses.deep_view()[j],
                        shared@,
                    ),
                forall|j: int| 0 <= j < i ==> slots@[j] is None,
            decreases addresses@.len() - i,
        {
            let mut one: Vec<String> = Vec::new();
            one.push(addresses[i].clone());
            let req = EmailCheckInput {
                to_emails: one,
                from_email: shared.from_email.clone(),
                hello_name: shared.hello_name.clone(),
                smtp_timeout: shared.smtp_timeout,
                yahoo_use_api: shared.yahoo_use_api,
            };
            proof {
                assert(req@.to_emails =~= seq![addresses.deep_view()[i as int]]);
            }
            let ghost prev = requests.deep_view();
            let ghost model = req@;
            requests.push(req);
            slots.push(None);
            proof {
                assert forall|j: int|
                    0 <= j < i + 1 implies requests.deep_view()[j] == Self::request_for(
                    addresses.deep_view()[j],
                    shared@,
                ) by {
                    if j < i {
                        assert(requests.deep_view()[j] == prev[j]);
                    } else {
                        assert(requests.deep_view()[j] == model);
                    }
                }
            }
            i += 1;
        }
        BatchDispatcher { requests, slots }
    }

    /// How many addresses the batch holds.
    pub fn len(&self) -> (n: usize)
        ensures
            n == self.spec_requests().len(),
    {
        self.requests.len()
    }

    /// The request for the address at one input position.
    pub fn request_at(&self, i: usize) -> (r: EmailCheckInput)
        requires
            i < self.spec_requests().len(),
        ensures
            r@ == self.spec_requests()[i as int],
    {
        self.requests[i].duplicate()
    }

    /// Record the finished result for the address at one input
    /// position; every other slot and every request stays as it was.
    pub fn record(&mut self, i: usize, result: EmailCheckResponse)
        requires
            i < old(self).spec_slots().len(),
        ensures
            final(self).spec_requests() == old(self).spec_requests(),
            final(self).spec_slots() == old(self).spec_slots().update(i as int, Some(result@)),
    {
        let ghost s0 = self.spec_slots();
        self.slots[i] = Some(result);
        proof {
            assert(self.spec_slots() =~= s0.update(i as int, self.spec_slots()[i as int]));
        }
    }

    /// Has every slot been filled?
    pub fn is_complete(&self) -> (r: bool)
        ensures
            r == (forall|i: int| 0 <= i < self.spec_slots().len() ==> self.spec_slots()[i] is Some),
    {
        let mut i: usize = 0;
        while i < self.slots.len()
            invariant
                i <= self.slots@.len(),
                forall|j: int| 0 <= j < i ==> self.spec_slots()[j] is Some,
            decreases self.slots@.len() - i,
        {
            if self.slots[i].is_none() {
                proof {
                    assert(self.spec_slots()[i as int] is None);
                }
                return false;
            }
            i += 1;
        }
        true
    }

    /// Read the finished batch out: one result per input address, in
    /// input order, with the verdicts counted.
    pub fn finish(self) -> (r: BatchResult)
        requires
            forall|i: int| 0 <= i < self.spec_slots().len() ==> self.spec_slots()[i] is Some,
        ensures
            r.items.deep_view().len() == self.spec_slots().len(),
            forall|i: int|
                0 <= i < self.spec_slots().len() ==> self.spec_slots()[i] == Some(
                    r.items.deep_view()[i],
                ),
            r.stats.counts(r.items.deep_view()),
            r.stats.total == r.stats.safe + r.stats.risky + r.stats.invalid + r.stats.unknown
                + r.stats.banned,
    {
        let ghost s0 = self.spec_slots();
        let mut slots = self.slots;
        let mut items: Vec<EmailCheckResponse> = Vec::new();
        while slots.len() > 0
            invariant
                items.deep_view().len() + slots@.len() == s0.len(),
                slots_model(slots@) == s0.skip(items.deep_view().len() as int),
                forall|j: int| 0 <= j < s0.len() ==> s0[j] is Some,
                forall|j: int|
                    0 <= j < items.deep_view().len() ==> s0[j] == Some(items.deep_view()[j]),
            decreases slots@.len(),
        {
            let ghost k = items.deep_view().len() as int;
            let ghost pre = slots@;
            let o = slots.remove(0);
            proof {
                assert(slots_model(pre)[0] == s0.skip(k)[0]);
                assert(s0.skip(k)[0] == s0[k]);
                assert(slots_model(slots@) =~= slots_model(pre).drop_first());
                assert(slots_model(pre).drop_first() =~= s0.skip(k + 1));
            }
            match o {
                Some(v) => {
                    items.push(v);
                },
                None => {
                    proof {
                        assert(false);
                    }
                },
            }
        }
        proof {
            assert(items.deep_view().len() == s0.len());
        }
        let stats = tally(&items);
        BatchResult { items, stats }
    }
}

} // verus!
