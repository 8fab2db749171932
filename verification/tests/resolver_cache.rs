use fpl_proxy::{
    classify_response, classify_transport_failure, Action, FallbackPlan, FetchOutcome,
    PayloadCache, ProxyError, Resolver, SnapshotKey,
};
use serde_json::Value;

fn val(s: &str) -> Value {
    serde_json::from_str(s).expect("test literal must parse")
}

fn plan(primary: &str, mirror: Option<&str>, snapshot: Option<SnapshotKey>) -> FallbackPlan {
    FallbackPlan {
        primary_url: primary.to_owned(),
        mirror_url: mirror.map(|m| m.to_owned()),
        snapshot_key: snapshot,
    }
}

#[test]
fn classify_success_parses_body() {
    let body = "{\"events\":[],\"teams\":[],\"elements\":[]}";
    match classify_response(200, body) {
        FetchOutcome::Success(v) => assert_eq!(v, val(body)),
        _ => panic!("2xx with JSON body must classify as success"),
    }
}

#[test]
fn classify_unparsable_body() {
    match classify_response(200, "<html>down</html>") {
        FetchOutcome::Unparsable => {}
        _ => panic!("2xx with a non-JSON body must classify as unparsable"),
    }
}

#[test]
fn classify_503_is_retryable() {
    match classify_response(503, "") {
        FetchOutcome::Unavailable { retryable } => assert!(retryable),
        _ => panic!("503 must classify as unavailable"),
    }
}

#[test]
fn classify_other_status_not_retryable() {
    match classify_response(404, "") {
        FetchOutcome::Unavailable { retryable } => assert!(!retryable),
        _ => panic!("404 must classify as unavailable"),
    }
    match classify_response(500, "{}") {
        FetchOutcome::Unavailable { retryable } => assert!(!retryable),
        _ => panic!("500 must classify as unavailable"),
    }
}

#[test]
fn classify_transport_failure_is_retryable() {
    match classify_transport_failure() {
        FetchOutcome::Unavailable { retryable } => assert!(retryable),
        _ => panic!("transport failure must classify as unavailable"),
    }
}

#[test]
fn resolver_primary_success_short_circuits() {
    let p = val("{\"events\":[1,2]}");
    let (mut r, a0) = Resolver::start(plan("https://p/", Some("https://m/"), Some(SnapshotKey::Fixtures)));
    match a0 {
        Action::Fetch(url) => assert_eq!(url, "https://p/"),
        _ => panic!("the first action must fetch the primary"),
    }
    match r.step_fetch(FetchOutcome::Success(p.clone())) {
        Action::Done(Ok(out)) => assert_eq!(out, p),
        _ => panic!("a primary success must end the chain with its payload"),
    }
}

#[test]
fn resolver_fallback_order_mirror_before_snapshot() {
    let p = val("{\"mirror\":true}");
    let (mut r, _) = Resolver::start(plan("https://p/", Some("https://m/"), Some(SnapshotKey::Fixtures)));
    match r.step_fetch(classify_response(503, "")) {
        Action::Fetch(url) => assert_eq!(url, "https://m/"),
        _ => panic!("a failing primary with a mirror configured must fetch the mirror"),
    }
    match r.step_fetch(FetchOutcome::Success(p.clone())) {
        Action::Done(Ok(out)) => assert_eq!(out, p),
        _ => panic!("a mirror success must end the chain; the snapshot is never consulted"),
    }
}

#[test]
fn resolver_snapshot_gated_on_overload() {
    let snap = val("[{\"id\":1}]");
    let (mut r, _) = Resolver::start(plan("https://p/", None, Some(SnapshotKey::LiveEvent)));
    match r.step_fetch(classify_response(503, "")) {
        Action::Lookup(k) => assert_eq!(k, SnapshotKey::LiveEvent),
        _ => panic!("an overloaded primary with no mirror must consult the snapshot"),
    }
    match r.step_snapshot(Some(snap.clone())) {
        Action::Done(Ok(out)) => assert_eq!(out, snap),
        _ => panic!("a found snapshot must be returned"),
    }
}

#[test]
fn resolver_snapshot_not_consulted_without_overload() {
    let (mut r, _) = Resolver::start(plan("https://p/", None, Some(SnapshotKey::LiveEvent)));
    match r.step_fetch(classify_response(404, "")) {
        Action::Done(Err(e)) => assert_eq!(e, ProxyError::Exhausted),
        _ => panic!("a 404 must not unlock the snapshot tier"),
    }
}

#[test]
fn resolver_missing_snapshot_exhausts() {
    let (mut r, _) = Resolver::start(plan("https://p/", None, Some(SnapshotKey::Fixtures)));
    match r.step_fetch(classify_transport_failure()) {
        Action::Lookup(_) => {}
        _ => panic!("a transport failure must unlock the snapshot tier"),
    }
    match r.step_snapshot(None) {
        Action::Done(Err(e)) => assert_eq!(e, ProxyError::Exhausted),
        _ => panic!("an absent snapshot must end in exhaustion"),
    }
}

#[test]
fn resolver_exhaustion_with_no_fallbacks() {
    let (mut r, _) = Resolver::start(plan("https://p/", None, None));
    match r.step_fetch(classify_response(503, "")) {
        Action::Done(Err(e)) => assert_eq!(e, ProxyError::Exhausted),
        _ => panic!("no mirror and no snapshot must end in a terminal error"),
    }
}

#[test]
fn cache_hit_within_ttl_returns_stored_payload() {
    let p = val("{\"a\":1}");
    let mut c = PayloadCache::new(10, 600);
    c.store("bootstrap-static", p.clone(), 1000);
    assert_eq!(c.lookup("bootstrap-static", 1000), Some(p.clone()));
    assert_eq!(c.lookup("bootstrap-static", 1599), Some(p));
}

#[test]
fn cache_entry_expires_after_ttl() {
    let p = val("{\"a\":1}");
    let mut c = PayloadCache::new(10, 600);
    c.store("k", p.clone(), 1000);
    assert_eq!(c.lookup("k", 1600), None);
    assert_eq!(c.lookup("k", 9999), None);
}

#[test]
fn cache_miss_on_absent_key() {
    let c = PayloadCache::new(10, 600);
    assert_eq!(c.lookup("nothing", 0), None);
}

#[test]
fn cache_failure_is_not_cached() {
    let p = val("{\"fresh\":true}");
    let mut c = PayloadCache::new(10, 600);
    let r = c.cache_result("k", Err(ProxyError::Exhausted), 50);
    assert_eq!(r, Err(ProxyError::Exhausted));
    assert_eq!(c.lookup("k", 50), None);
    let r2 = c.cache_result("k", Ok(p.clone()), 60);
    assert_eq!(r2, Ok(p.clone()));
    assert_eq!(c.lookup("k", 70), Some(p));
}

#[test]
fn cache_capacity_is_never_exceeded() {
    let mut c = PayloadCache::new(2, 600);
    c.store("k1", val("1"), 0);
    c.store("k2", val("2"), 1);
    c.store("k3", val("3"), 2);
    c.store("k4", val("4"), 3);
    let resident = ["k1", "k2", "k3", "k4"]
        .iter()
        .filter(|k| c.lookup(k, 4).is_some())
        .count();
    assert!(resident <= 2);
    assert_eq!(c.lookup("k4", 4), Some(val("4")));
}

#[test]
fn cache_replacement_refreshes_timestamp() {
    let mut c = PayloadCache::new(2, 100);
    c.store("k", val("1"), 0);
    c.store("k", val("2"), 90);
    assert_eq!(c.lookup("k", 150), Some(val("2")));
    assert_eq!(c.lookup("k", 190), None);
}

#[test]
fn scenario_bootstrap_roundtrip() {
    let body = "{\"events\":[],\"teams\":[],\"elements\":[]}";
    let outcome = classify_response(200, body);
    let (mut r, _) = Resolver::start(plan(
        "https://fantasy.premierleague.com/api/bootstrap-static/",
        Some("https://fpl-static-data.vercel.app/2025-2026/bootstrap-static.json"),
        Some(SnapshotKey::BootstrapStatic),
    ));
    let result = match r.step_fetch(outcome) {
        Action::Done(d) => d,
        _ => panic!("a primary success must end the chain"),
    };
    let mut c = PayloadCache::new(1000, 600);
    let now = 10_000;
    let served = c.cache_result("bootstrap-static", result, now).expect("resolved");
    assert_eq!(served, val(body));
    let again = c.lookup("bootstrap-static", now + 599).expect("cached within ten minutes");
    assert_eq!(again, val(body));
}
