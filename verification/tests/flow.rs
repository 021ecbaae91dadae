use extant::mx_cache::{MxCache, MxOutcome};
use extant::pipeline::{begin_check, finish_check, resume_after_mx, CheckStep, RetryCoordinator};
use extant::request::EmailCheckInput;
use extant::response::EmailCheckResponse;
use extant::result_cache::ResultCache;
use extant::verdict::{MyReachable, ProbeError, SmtpSignals};

fn request_for(address: &str) -> EmailCheckInput {
    EmailCheckInput::new(vec![address.to_string()])
}

fn clean_signals() -> SmtpSignals {
    SmtpSignals {
        can_connect_smtp: true,
        has_full_inbox: false,
        is_catch_all: false,
        is_deliverable: true,
        is_disabled: false,
        is_banned: false,
    }
}

fn run_once(
    mx: &mut MxCache,
    results: &mut ResultCache,
    address: &str,
    outcome: MxOutcome,
    smtp: Result<SmtpSignals, ProbeError>,
) -> EmailCheckResponse {
    match begin_check(mx, results, request_for(address)) {
        CheckStep::Done(r) => r,
        CheckStep::NeedMx(pending) => match resume_after_mx(mx, results, pending, outcome) {
            CheckStep::Done(r) => r,
            CheckStep::NeedProbe(pending, _params) => finish_check(results, pending, smtp),
            CheckStep::NeedMx(_) => panic!("a resolution cannot be asked for twice"),
        },
        CheckStep::NeedProbe(pending, _params) => finish_check(results, pending, smtp),
    }
}

#[test]
fn invalid_syntax_is_invalid_with_no_signals_and_no_network_step() {
    let mx = MxCache::new();
    let mut results = ResultCache::with_default_capacity();
    let step = begin_check(&mx, &mut results, request_for("not-an-email"));
    match step {
        CheckStep::Done(r) => {
            assert_eq!(r.is_reachable, MyReachable::Invalid);
            assert_eq!(r.email, "not-an-email");
            assert!(r.is_disposable.is_none());
            assert!(r.is_role_account.is_none());
            assert!(r.can_connect_smtp.is_none());
            assert!(r.has_full_inbox.is_none());
            assert!(r.is_catch_all.is_none());
            assert!(r.is_deliverable.is_none());
            assert!(r.is_disabled.is_none());
            assert!(r.is_banned.is_none());
        }
        _ => panic!("an ill-formed address must not reach the network"),
    }
    // A domain without a dot is rejected as well.
    let step = begin_check(&mx, &mut results, request_for("foo@bar"));
    match step {
        CheckStep::Done(r) => assert_eq!(r.is_reachable, MyReachable::Invalid),
        _ => panic!("an ill-formed address must not reach the network"),
    }
}

#[test]
fn valid_address_asks_for_its_domain() {
    let mx = MxCache::new();
    let mut results = ResultCache::with_default_capacity();
    let step = begin_check(&mx, &mut results, request_for("alice@example.com"));
    match step {
        CheckStep::NeedMx(pending) => {
            assert_eq!(pending.address, "alice@example.com");
            assert_eq!(pending.domain, "example.com");
        }
        _ => panic!("a fresh well-formed address needs a resolution"),
    }
}

#[test]
fn resolution_failure_is_unknown_and_empty_records_are_invalid() {
    let mut mx = MxCache::new();
    let mut results = ResultCache::with_default_capacity();
    let r = run_once(
        &mut mx,
        &mut results,
        "alice@example.com",
        MxOutcome::Failed,
        Ok(clean_signals()),
    );
    assert_eq!(r.is_reachable, MyReachable::Unknown);
    assert!(r.is_disposable.is_none());

    let r = run_once(
        &mut mx,
        &mut results,
        "alice@example.org",
        MxOutcome::Records(vec![]),
        Ok(clean_signals()),
    );
    assert_eq!(r.is_reachable, MyReachable::Invalid);
    assert!(r.is_disposable.is_none());
}

#[test]
fn probe_parameters_carry_the_first_exchanger_and_the_options() {
    let mut mx_mut = MxCache::new();
    let mut results = ResultCache::with_default_capacity();
    let mut request = request_for("alice@example.com");
    request
        .set_from_email("verifier@probe.test".to_string())
        .set_hello_name("probe.test".to_string())
        .set_smtp_timeout(10_000)
        .set_yahoo_use_api(false);
    let step = begin_check(&mx_mut, &mut results, request);
    let pending = match step {
        CheckStep::NeedMx(p) => p,
        _ => panic!("a fresh well-formed address needs a resolution"),
    };
    let outcome = MxOutcome::Records(vec![
        "mx1.example.com".to_string(),
        "mx2.example.com".to_string(),
    ]);
    match resume_after_mx(&mut mx_mut, &mut results, pending, outcome) {
        CheckStep::NeedProbe(_pending, params) => {
            assert_eq!(params.to_email, "alice@example.com");
            assert_eq!(params.host, "mx1.example.com");
            assert_eq!(params.port, 25);
            assert_eq!(params.domain, "example.com");
            assert_eq!(params.from_email, "verifier@probe.test");
            assert_eq!(params.hello_name, "probe.test");
            assert_eq!(params.smtp_timeout, Some(10_000));
            assert!(!params.yahoo_use_api);
        }
        _ => panic!("a resolved domain with exchangers needs a probe"),
    }
}

#[test]
fn role_account_is_risky() {
    let mut mx = MxCache::new();
    let mut results = ResultCache::with_default_capacity();
    let r = run_once(
        &mut mx,
        &mut results,
        "admin@example.com",
        MxOutcome::Records(vec!["mx.example.com".to_string()]),
        Ok(clean_signals()),
    );
    assert_eq!(r.is_reachable, MyReachable::Risky);
    assert_eq!(r.is_role_account, Some(true));
    assert_eq!(r.is_disposable, Some(false));
}

#[test]
fn disposable_domain_is_rejected_by_the_validator() {
    // The external syntax validator already refuses addresses of known
    // disposable domains, so they end as Invalid before any resolution.
    let mx = MxCache::new();
    let mut results = ResultCache::with_default_capacity();
    match begin_check(&mx, &mut results, request_for("somebody@mailinator.com")) {
        CheckStep::Done(r) => {
            assert_eq!(r.is_reachable, MyReachable::Invalid);
            assert!(r.is_disposable.is_none());
        }
        _ => panic!("a refused address must not reach the network"),
    }
}

#[test]
fn clean_probe_is_safe_with_all_signals_present() {
    let mut mx = MxCache::new();
    let mut results = ResultCache::with_default_capacity();
    let r = run_once(
        &mut mx,
        &mut results,
        "alice@example.com",
        MxOutcome::Records(vec!["mx.example.com".to_string()]),
        Ok(clean_signals()),
    );
    assert_eq!(r.is_reachable, MyReachable::Safe);
    assert_eq!(r.email, "alice@example.com");
    assert_eq!(r.is_disposable, Some(false));
    assert_eq!(r.is_role_account, Some(false));
    assert_eq!(r.can_connect_smtp, Some(true));
    assert_eq!(r.has_full_inbox, Some(false));
    assert_eq!(r.is_catch_all, Some(false));
    assert_eq!(r.is_deliverable, Some(true));
    assert_eq!(r.is_disabled, Some(false));
    assert_eq!(r.is_banned, Some(false));
}

#[test]
fn failed_probe_is_unknown_with_probe_signals_absent() {
    let mut mx = MxCache::new();
    let mut results = ResultCache::with_default_capacity();
    let r = run_once(
        &mut mx,
        &mut results,
        "alice@example.com",
        MxOutcome::Records(vec!["mx.example.com".to_string()]),
        Err(ProbeError::Timeout),
    );
    assert_eq!(r.is_reachable, MyReachable::Unknown);
    assert_eq!(r.is_disposable, Some(false));
    assert!(r.can_connect_smtp.is_none());
    assert!(r.is_deliverable.is_none());
}

#[test]
fn second_check_of_a_classified_address_is_served_from_the_cache() {
    let mut mx = MxCache::new();
    let mut results = ResultCache::with_default_capacity();
    let first = run_once(
        &mut mx,
        &mut results,
        "alice@example.com",
        MxOutcome::Records(vec!["mx.example.com".to_string()]),
        Ok(clean_signals()),
    );
    assert_eq!(first.is_reachable, MyReachable::Safe);
    // The second check must finish at once, without asking for a probe.
    match begin_check(&mx, &mut results, request_for("alice@example.com")) {
        CheckStep::Done(second) => assert!(second.same_as(&first)),
        _ => panic!("a cached result must be returned without new work"),
    }
}

#[test]
fn unknown_is_recomputed_on_the_next_check() {
    let mut mx = MxCache::new();
    let mut results = ResultCache::with_default_capacity();
    let first = run_once(
        &mut mx,
        &mut results,
        "alice@example.com",
        MxOutcome::Records(vec!["mx.example.com".to_string()]),
        Err(ProbeError::Failed),
    );
    assert_eq!(first.is_reachable, MyReachable::Unknown);
    // The Unknown outcome was not cached: the pipeline runs again, and
    // this time the probe succeeds.
    let step = begin_check(&mx, &mut results, request_for("alice@example.com"));
    let second = match step {
        CheckStep::NeedProbe(pending, _params) => {
            finish_check(&mut results, pending, Ok(clean_signals()))
        }
        CheckStep::Done(_) => panic!("an Unknown verdict must not be served from the cache"),
        CheckStep::NeedMx(_) => panic!("the exchanger cache must still hold the domain"),
    };
    assert_eq!(second.is_reachable, MyReachable::Safe);
}

#[test]
fn mx_outcome_is_cached_across_runs() {
    let mut mx = MxCache::new();
    let mut results = ResultCache::with_default_capacity();
    // First run resolves and fails the probe; the domain is now cached.
    let _ = run_once(
        &mut mx,
        &mut results,
        "alice@example.com",
        MxOutcome::Records(vec!["mx.example.com".to_string()]),
        Err(ProbeError::Failed),
    );
    // A different address of the same domain skips the resolution.
    match begin_check(&mx, &mut results, request_for("bob@example.com")) {
        CheckStep::NeedProbe(_pending, params) => {
            assert_eq!(params.host, "mx.example.com");
        }
        _ => panic!("a cached resolution must be reused"),
    }
}

#[test]
fn retry_exhausts_its_attempts_on_unknown() {
    let mut retry = RetryCoordinator::new(3);
    let unknown = EmailCheckResponse::bare(MyReachable::Unknown, "a@example.com".to_string());
    let mut invocations = 1;
    assert!(retry.decide(unknown.duplicate()).is_none());
    invocations += 1;
    assert!(retry.decide(unknown.duplicate()).is_none());
    invocations += 1;
    let last = retry.decide(unknown.duplicate());
    match last {
        Some(r) => assert_eq!(r.is_reachable, MyReachable::Unknown),
        None => panic!("the last attempt's result is final"),
    }
    assert_eq!(invocations, 3);
}

#[test]
fn retry_stops_at_the_first_settled_verdict() {
    let mut retry = RetryCoordinator::new(3);
    let unknown = EmailCheckResponse::bare(MyReachable::Unknown, "a@example.com".to_string());
    let safe = EmailCheckResponse::bare(MyReachable::Safe, "a@example.com".to_string());
    let mut invocations = 1;
    assert!(retry.decide(unknown).is_none());
    invocations += 1;
    match retry.decide(safe) {
        Some(r) => assert_eq!(r.is_reachable, MyReachable::Safe),
        None => panic!("a settled verdict is final"),
    }
    assert_eq!(invocations, 2);
}

#[test]
fn a_single_attempt_returns_whatever_comes() {
    let mut retry = RetryCoordinator::new(1);
    let unknown = EmailCheckResponse::bare(MyReachable::Unknown, "a@example.com".to_string());
    assert!(retry.decide(unknown).is_some());
}
