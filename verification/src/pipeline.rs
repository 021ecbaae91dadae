//! One address-level verification run, as a state machine: the caller
//! performs the network steps (DNS resolution, mailbox probe) and feeds
//! their outcomes back; every decision in between is verified here.
//! A bounded retry coordinator re-runs ambiguous checks.

use vstd::prelude::*;
use crate::mx_cache::{MxCache, MxOutcome, MxOutcomeModel};
use crate::outside::{misc_of, misc_signals, parse_syntax, syntax_of};
use crate::request::{EmailCheckInput, InputModel};
use crate::response::{bare_response, full_response, EmailCheckResponse, ResponseModel};
use crate::result_cache::ResultCache;
use crate::verdict::{
    calculate_reachable, probe_signals, spec_reachable, MiscSignals, MyReachable, ProbeError,
    SmtpSignals,
};

verus! {

/// Model of the parameters handed to the mailbox probe.
pub ghost struct ProbeParamsModel {
    pub to_email: Seq<char>,
    pub host: Seq<char>,
    pub port: u16,
    pub domain: Seq<char>,
    pub from_email: Seq<char>,
    pub hello_name: Seq<char>,
    pub smtp_timeout: Option<u64>,
    pub yahoo_use_api: bool,
}

/// Everything the caller needs to probe one mailbox: the address, the
/// selected exchanger host and port, the domain, and the options
/// inherited from the request.
#[derive(Debug)]
pub struct ProbeParams {
    pub to_email: String,
    pub host: String,
    pub port: u16,
    pub domain: String,
    pub from_email: String,
    pub hello_name: String,
    pub smtp_timeout: Option<u64>,
    pub yahoo_use_api: bool,
}

impl View for ProbeParams {
    type V = ProbeParamsModel;

    open spec fn view(&self) -> ProbeParamsModel {
        ProbeParamsModel {
            to_email: self.to_email@,
            host: self.host@,
            port: self.port,
            domain: self.domain@,
            from_email: self.from_email@,
            hello_name: self.hello_name@,
            smtp_timeout: self.smtp_timeout,
            yahoo_use_api: self.yahoo_use_api,
        }
    }
}

/// A run waiting for its domain's exchangers to be resolved.
#[derive(Debug)]
pub struct PendingMx {
    pub request: EmailCheckInput,
    pub address: String,
    pub domain: String,
    pub misc: MiscSignals,
}

/// A run waiting for its mailbox probe to complete.
#[derive(Debug)]
pub struct PendingProbe {
    pub address: String,
    pub misc: MiscSignals,
}

/// What a run needs next: nothing (the result is final), a DNS
/// resolution of the given pending run's domain, or a mailbox probe
/// with the given parameters.
#[derive(Debug)]
pub enum CheckStep {
    Done(EmailCheckResponse),
    NeedMx(PendingMx),
    NeedProbe(PendingProbe, ProbeParams),
}

/// The step is a final result with this model.
pub open spec fn step_done(step: CheckStep, m: ResponseModel) -> bool {
    step matches CheckStep::Done(r) && r@ == m
}

/// The step asks for a DNS resolution, carrying these pending values.
pub open spec fn step_need_mx(
    step: CheckStep,
    req: InputModel,
    address: Seq<char>,
    domain: Seq<char>,
    misc: MiscSignals,
) -> bool {
    step matches CheckStep::NeedMx(p) && p.request@ == req && p.address@ == address && p.domain@
        == domain && p.misc == misc
}

/// The step asks for a mailbox probe with exactly these parameters.
pub open spec fn step_need_probe(
    step: CheckStep,
    address: Seq<char>,
    misc: MiscSignals,
    params: ProbeParamsModel,
) -> bool {
    step matches CheckStep::NeedProbe(p, pr) && p.address@ == address && p.misc == misc && pr@
        == params
}

/// The probe parameters owed for an address: the address itself, the
/// first exchanger of its domain, port 25, and the request's options.
pub open spec fn expected_params(
    address: Seq<char>,
    domain: Seq<char>,
    host: Seq<char>,
    req: InputModel,
) -> ProbeParamsModel {
    ProbeParamsModel {
        to_email: address,
        host: host,
        port: 25,
        domain: domain,
        from_email: req.from_email,
        hello_name: req.hello_name,
        smtp_timeout: req.smtp_timeout,
        yahoo_use_api: req.yahoo_use_api,
    }
}

/// Every address maps to the same cached result in both cache states.
pub open spec fn same_results(r_old: ResultCache, r_new: ResultCache) -> bool {
    forall|q: Seq<char>| r_new.spec_get(q) == r_old.spec_get(q)
}

/// What continuing a run with a resolution outcome must produce: a
/// resolver failure ends in Unknown and caches nothing; an empty record
/// set ends in Invalid, which is cached; otherwise the first exchanger
/// is selected for the probe and the caches are untouched.
pub open spec fn mx_step_post(
    step: CheckStep,
    r_old: ResultCache,
    r_new: ResultCache,
    address: Seq<char>,
    misc: MiscSignals,
    req: InputModel,
    domain: Seq<char>,
    o: MxOutcomeModel,
) -> bool {
    match o {
        MxOutcomeModel::Failed => step_done(step, bare_response(MyReachable::Unknown, address))
            && r_new.entries() == r_old.entries(),
        MxOutcomeModel::Records(hs) => if hs.len() == 0 {
            step_done(step, bare_response(MyReachable::Invalid, address)) && r_new.spec_get(
                address,
            ) == Some(bare_response(MyReachable::Invalid, address))
        } else {
            step_need_probe(step, address, misc, expected_params(address, domain, hs[0], req))
                && r_new.entries() == r_old.entries()
        },
    }
}

/// What beginning a run must produce, given the request and the two
/// cache states: a cached result is returned as it stands; an
/// ill-formed address ends in Invalid at once, which is cached; on a
/// fresh well-formed address the domain's cached resolution is used
/// when present, and asked of the caller when not.
pub open spec fn begin_post(
    step: CheckStep,
    mx: MxCache,
    r_old: ResultCache,
    r_new: ResultCache,
    req: InputModel,
) -> bool {
    let a = req.to_emails[0];
    let syn = syntax_of(a);
    match r_old.spec_get(a) {
        Some(m) => step_done(step, m) && same_results(r_old, r_new),
        None => if !syn.valid {
            step_done(step, bare_response(MyReachable::Invalid, a)) && r_new.spec_get(a) == Some(
                bare_response(MyReachable::Invalid, a),
            )
        } else {
            match mx.spec_get(syn.domain) {
                None => step_need_mx(step, req, a, syn.domain, misc_of(a))
                    && r_new.entries() == r_old.entries(),
                Some(o) => mx_step_post(step, r_old, r_new, a, misc_of(a), req, syn.domain, o),
            }
        },
    }
}

/// Begin one verification run for the first target address of the
/// request.  No DNS or SMTP work is asked of the caller unless the
/// address is well-formed, uncached, and its domain unresolved or
/// resolved to at least one exchanger.
pub fn begin_check(mx: &MxCache, results: &mut ResultCache, request: EmailCheckInput) -> (step:
    CheckStep)
    requires
        request.to_emails@.len() >= 1,
        mx.wf(),
        old(results).wf(),
    ensures
        final(results).wf(),
        final(results).spec_capacity() == old(results).spec_capacity(),
        begin_post(step, *mx, *old(results), *final(results), request@),
{
    proof {
        assert(request@.to_emails[0] == request.to_emails@[0]@);
    }
    let raw = request.to_emails[0].clone();
    match results.get(&raw) {
        Some(v) => CheckStep::Done(v),
        None => {
            let syntax = parse_syntax(raw.as_str());
            if !syntax.is_valid {
                let key = raw.clone();
                let resp = EmailCheckResponse::bare(MyReachable::Invalid, raw);
                results.store(key, resp.duplicate());
                CheckStep::Done(resp)
            } else {
                let misc = misc_signals(raw.as_str());
                let pending = PendingMx {
                    request,
                    address: syntax.address,
                    domain: syntax.domain,
                    misc,
                };
                match mx.get(&pending.domain) {
                    None => CheckStep::NeedMx(pending),
                    Some(outcome) => continue_with_outcome(results, pending, outcome),
                }
            }
        },
    }
}

/// Continue a pending run once its domain's resolution outcome is
/// known, remembering the outcome — success or failure alike — in the
/// exchanger cache.
pub fn resume_after_mx(
    mx: &mut MxCache,
    results: &mut ResultCache,
    pending: PendingMx,
    outcome: MxOutcome,
) -> (step: CheckStep)
    requires
        old(mx).wf(),
        old(mx).spec_get(pending.domain@) is None,
        old(results).wf(),
        old(results).spec_get(pending.address@) is None,
    ensures
        final(mx).wf(),
        final(mx).spec_get(pending.domain@) == Some(outcome@),
        forall|q: Seq<char>|
            q != pending.domain@ ==> final(mx).spec_get(q) == old(mx).spec_get(q),
        final(results).wf(),
        final(results).spec_capacity() == old(results).spec_capacity(),
        mx_step_post(
            step,
            *old(results),
            *final(results),
            pending.address@,
            pending.misc,
            pending.request@,
            pending.domain@,
            outcome@,
        ),
{
    let domain = pending.domain.clone();
    let step = continue_with_outcome(results, pending, &outcome);
    mx.store(domain, outcome);
    step
}

/// Turn a resolution outcome into the run's next step: fail to Unknown,
/// short-circuit an empty record set to Invalid, or select the first
/// exchanger for the probe.
fn continue_with_outcome(results: &mut ResultCache, pending: PendingMx, outcome: &MxOutcome) -> (
    step: CheckStep)
    requires
        old(results).wf(),
        old(results).spec_get(pending.address@) is None,
    ensures
        final(results).wf(),
        final(results).spec_capacity() == old(results).spec_capacity(),
        mx_step_post(
            step,
            *old(results),
            *final(results),
            pending.address@,
            pending.misc,
            pending.request@,
            pending.domain@,
            outcome@,
        ),
{
    match outcome {
        MxOutcome::Failed => CheckStep::Done(
            EmailCheckResponse::bare(MyReachable::Unknown, pending.address),
        ),
        MxOutcome::Records(hosts) => {
            if hosts.len() == 0 {
                let key = pending.address.clone();
                let resp = EmailCheckResponse::bare(MyReachable::Invalid, pending.address);
                results.store(key, resp.duplicate());
                CheckStep::Done(resp)
            } else {
                let host = hosts[0].clone();
                proof {
                    assert(hosts.deep_view()[0] == hosts@[0]@);
                }
                let params = ProbeParams {
                    to_email: pending.address.clone(),
                    host,
                    port: 25,
                    domain: pending.domain,
                    from_email: pending.request.from_email,
                    hello_name: pending.request.hello_name,
                    smtp_timeout: pending.request.smtp_timeout,
                    yahoo_use_api: pending.request.yahoo_use_api,
                };
                CheckStep::NeedProbe(
                    PendingProbe { address: pending.address, misc: pending.misc },
                    params,
                )
            }
        },
    }
}

/// Finish a run once its probe outcome is known: classify, assemble the
/// response, and cache it unless the verdict is Unknown.
pub fn finish_check(
    results: &mut ResultCache,
    pending: PendingProbe,
    smtp: Result<SmtpSignals, ProbeError>,
) -> (r: EmailCheckResponse)
    requires
        old(results).wf(),
        old(results).spec_get(pending.address@) is None,
    ensures
        final(results).wf(),
        final(results).spec_capacity() == old(results).spec_capacity(),
        r@ == full_response(
            pending.address@,
            pending.misc,
            smtp,
            spec_reachable(pending.misc, probe_signals(smtp)),
        ),
        r@.is_reachable == MyReachable::Unknown ==> final(results).entries() == old(
            results,
        ).entries(),
        r@.is_reachable != MyReachable::Unknown ==> final(results).spec_get(pending.address@)
            == Some(r@),
{
    let verdict = calculate_reachable(&pending.misc, &smtp);
    let mut resp = EmailCheckResponse::bare(verdict, pending.address);
    resp.is_disposable = Some(pending.misc.is_disposable);
    resp.is_role_account = Some(pending.misc.is_role_account);
    if let Ok(s) = &smtp {
        resp.can_connect_smtp = Some(s.can_connect_smtp);
        resp.has_full_inbox = Some(s.has_full_inbox);
        resp.is_catch_all = Some(s.is_catch_all);
        resp.is_deliverable = Some(s.is_deliverable);
        resp.is_disabled = Some(s.is_disabled);
        resp.is_banned = Some(s.is_banned);
    }
    let key = resp.email.clone();
    results.store(key, resp.duplicate());
    resp
}

/// Bounded retry on ambiguous verdicts: a run whose verdict is Unknown
/// is re-run while attempts remain; any other verdict, or the last
/// attempt's result, is final.
#[derive(Debug)]
pub struct RetryCoordinator {
    pub attempts_left: usize,
}

impl RetryCoordinator {
    /// A coordinator allowing at most `max_attempts` runs.
    pub fn new(max_attempts: usize) -> (r: RetryCoordinator)
        ensures
            r.attempts_left == max_attempts,
    {
        RetryCoordinator { attempts_left: max_attempts }
    }

    /// Decide on one completed run's result: `Some` returns it as
    /// final, `None` asks the caller to run the check once more.  A
    /// check is re-run exactly when its verdict is Unknown and more
    /// than one attempt remains.
    pub fn decide(&mut self, result: EmailCheckResponse) -> (r: Option<EmailCheckResponse>)
        ensures
            result@.is_reachable != MyReachable::Unknown || old(self).attempts_left <= 1 ==> (
            r matches Some(v) && v@ == result@),
            result@.is_reachable != MyReachable::Unknown || old(self).attempts_left <= 1
                ==> final(self).attempts_left == old(self).attempts_left,
            result@.is_reachable == MyReachable::Unknown && old(self).attempts_left > 1 ==> r
                is None && final(self).attempts_left == old(self).attempts_left - 1,
    {
        if result.is_reachable == MyReachable::Unknown && self.attempts_left > 1 {
            self.attempts_left = self.attempts_left - 1;
            None
        } else {
            Some(result)
        }
    }
}

} // verus!
