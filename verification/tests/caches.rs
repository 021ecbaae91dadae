use extant::mx_cache::{MxCache, MxOutcome};
use extant::response::EmailCheckResponse;
use extant::result_cache::ResultCache;
use extant::verdict::MyReachable;

#[test]
fn mx_cache_returns_what_was_stored() {
    let mut cache = MxCache::new();
    assert!(cache.get(&"example.com".to_string()).is_none());

    cache.store(
        "example.com".to_string(),
        MxOutcome::Records(vec!["mx1.example.com".to_string(), "mx2.example.com".to_string()]),
    );
    match cache.get(&"example.com".to_string()) {
        Some(MxOutcome::Records(hosts)) => {
            assert_eq!(hosts.len(), 2);
            assert_eq!(hosts[0], "mx1.example.com");
            assert_eq!(hosts[1], "mx2.example.com");
        }
        _ => panic!("expected cached records"),
    }
    assert!(cache.get(&"other.org".to_string()).is_none());
}

#[test]
fn mx_cache_remembers_failures_too() {
    let mut cache = MxCache::new();
    cache.store("broken.example".to_string(), MxOutcome::Failed);
    assert!(matches!(
        cache.get(&"broken.example".to_string()),
        Some(MxOutcome::Failed)
    ));
}

fn classified(email: &str, verdict: MyReachable) -> EmailCheckResponse {
    EmailCheckResponse::bare(verdict, email.to_string())
}

#[test]
fn result_cache_round_trip() {
    let mut cache = ResultCache::new(10);
    assert_eq!(cache.len(), 0);
    assert_eq!(cache.capacity(), 10);
    assert!(cache.get(&"a@example.com".to_string()).is_none());

    let stored = classified("a@example.com", MyReachable::Safe);
    cache.store("a@example.com".to_string(), stored.duplicate());
    assert_eq!(cache.len(), 1);
    let got = cache.get(&"a@example.com".to_string()).unwrap();
    assert!(got.same_as(&stored));
}

#[test]
fn result_cache_never_persists_unknown() {
    let mut cache = ResultCache::new(10);
    cache.store(
        "a@example.com".to_string(),
        classified("a@example.com", MyReachable::Unknown),
    );
    assert_eq!(cache.len(), 0);
    assert!(cache.get(&"a@example.com".to_string()).is_none());

    // Every other verdict is persisted.
    cache.store(
        "b@example.com".to_string(),
        classified("b@example.com", MyReachable::Invalid),
    );
    cache.store(
        "c@example.com".to_string(),
        classified("c@example.com", MyReachable::Banned),
    );
    assert_eq!(cache.len(), 2);
}

#[test]
fn full_cache_evicts_exactly_the_least_recently_used() {
    let mut cache = ResultCache::new(100);
    for k in 0..101u32 {
        let email = format!("user{}@example.com", k);
        cache.store(email.clone(), classified(&email, MyReachable::Safe));
        assert!(cache.len() <= 100);
    }
    assert_eq!(cache.len(), 100);
    // The first insert was the least recently used: it alone is gone.
    assert!(cache.get(&"user0@example.com".to_string()).is_none());
    for k in 1..101u32 {
        let email = format!("user{}@example.com", k);
        assert!(cache.get(&email).is_some());
    }
}

#[test]
fn a_hit_refreshes_recency() {
    let mut cache = ResultCache::new(3);
    for email in ["a@x.org", "b@x.org", "c@x.org"] {
        cache.store(email.to_string(), classified(email, MyReachable::Safe));
    }
    // Touch the oldest entry, making `b` the least recently used.
    assert!(cache.get(&"a@x.org".to_string()).is_some());
    cache.store("d@x.org".to_string(), classified("d@x.org", MyReachable::Safe));
    assert!(cache.get(&"b@x.org".to_string()).is_none());
    assert!(cache.get(&"a@x.org".to_string()).is_some());
    assert!(cache.get(&"c@x.org".to_string()).is_some());
    assert!(cache.get(&"d@x.org".to_string()).is_some());
}

#[test]
fn default_capacity_is_one_hundred() {
    let cache = ResultCache::with_default_capacity();
    assert_eq!(cache.capacity(), 100);
}
