use fpl_proxy::{
    extract_path_param, plan_for, route, ProxyError, ResourceRequest, RouteTarget, SnapshotKey,
    SnapshotStore,
};
use serde_json::Value;

fn val(s: &str) -> Value {
    serde_json::from_str(s).expect("test literal must parse")
}

fn resource(path: &str) -> ResourceRequest {
    match route(path) {
        Ok(RouteTarget::Resource(r)) => r,
        other => panic!("expected a resource for {path}, got {other:?}"),
    }
}

#[test]
fn extract_path_param_basic() {
    assert_eq!(
        extract_path_param("/element-summary/42", "/element-summary/:id", "id"),
        Some("42".to_owned())
    );
    assert_eq!(extract_path_param("/live-event/7", "/live-event/:gw", "gw"), Some("7".to_owned()));
}

#[test]
fn extract_path_param_length_mismatch() {
    assert_eq!(extract_path_param("/element-summary/1/2", "/element-summary/:id", "id"), None);
    assert_eq!(extract_path_param("/element-summary", "/element-summary/:id", "id"), None);
}

#[test]
fn extract_path_param_wrong_name() {
    assert_eq!(extract_path_param("/live-event/7", "/live-event/:gw", "id"), None);
}

#[test]
fn route_health() {
    assert!(matches!(route("/health"), Ok(RouteTarget::Health)));
}

#[test]
fn route_static_resources() {
    assert!(matches!(resource("/bootstrap-static"), ResourceRequest::BootstrapStatic));
    assert!(matches!(resource("/fixtures"), ResourceRequest::Fixtures));
}

#[test]
fn route_parameterised_resources() {
    match resource("/element-summary/42") {
        ResourceRequest::ElementSummary { id } => assert_eq!(id, "42"),
        other => panic!("wrong resource: {other:?}"),
    }
    match resource("/live-event/7") {
        ResourceRequest::LiveEvent { gw } => assert_eq!(gw, "7"),
        other => panic!("wrong resource: {other:?}"),
    }
    match resource("/picks/123/8") {
        ResourceRequest::Picks { manager_id, gw } => {
            assert_eq!(manager_id, "123");
            assert_eq!(gw, "8");
        }
        other => panic!("wrong resource: {other:?}"),
    }
    match resource("/manager/55") {
        ResourceRequest::ManagerInfo { id } => assert_eq!(id, "55"),
        other => panic!("wrong resource: {other:?}"),
    }
    match resource("/manager/55/transfers") {
        ResourceRequest::ManagerTransfers { id } => assert_eq!(id, "55"),
        other => panic!("wrong resource: {other:?}"),
    }
    match resource("/manager/55/history") {
        ResourceRequest::ManagerHistory { id } => assert_eq!(id, "55"),
        other => panic!("wrong resource: {other:?}"),
    }
    match resource("/league/99/2") {
        ResourceRequest::LeagueStandings { league_id, page } => {
            assert_eq!(league_id, "99");
            assert_eq!(page, "2");
        }
        other => panic!("wrong resource: {other:?}"),
    }
    match resource("/league/mon/99/3") {
        ResourceRequest::LeagueStandingsByPhase { league_id, phase } => {
            assert_eq!(league_id, "99");
            assert_eq!(phase, "3");
        }
        other => panic!("wrong resource: {other:?}"),
    }
}

#[test]
fn route_errors() {
    assert_eq!(route("/nope").unwrap_err(), ProxyError::NotFound);
    assert_eq!(route("/element-summary/1/2").unwrap_err(), ProxyError::InvalidElementId);
    assert_eq!(route("/live-event/1/2").unwrap_err(), ProxyError::InvalidGameweek);
    assert_eq!(route("/picks/123").unwrap_err(), ProxyError::InvalidPicksPath);
    assert_eq!(route("/manager/1/other").unwrap_err(), ProxyError::InvalidManagerEndpoint);
    assert_eq!(route("/manager/1/2/3").unwrap_err(), ProxyError::InvalidManagerPath);
    assert_eq!(route("/league/1").unwrap_err(), ProxyError::InvalidLeaguePath);
}

#[test]
fn error_status_codes_and_messages() {
    assert_eq!(ProxyError::NotFound.status_code(), 404);
    assert_eq!(ProxyError::NotFound.message(), "Not Found");
    assert_eq!(ProxyError::Exhausted.status_code(), 500);
    assert_eq!(
        ProxyError::Exhausted.message(),
        "Failed to fetch data from all available sources"
    );
    assert_eq!(ProxyError::InvalidElementId.status_code(), 500);
    assert_eq!(ProxyError::InvalidElementId.message(), "Invalid element ID");
    assert_eq!(ProxyError::InvalidGameweek.message(), "Invalid gameweek");
    assert_eq!(ProxyError::InvalidPicksPath.message(), "Invalid picks path");
    assert_eq!(ProxyError::InvalidManagerEndpoint.message(), "Invalid manager endpoint");
    assert_eq!(ProxyError::InvalidManagerPath.message(), "Invalid manager path");
    assert_eq!(ProxyError::InvalidLeaguePath.message(), "Invalid league path");
}

#[test]
fn plan_urls_for_bootstrap() {
    let p = plan_for(&ResourceRequest::BootstrapStatic);
    assert_eq!(
        p.plan.primary_url,
        "https://fantasy.premierleague.com/api/bootstrap-static/"
    );
    assert_eq!(
        p.plan.mirror_url.as_deref(),
        Some("https://fpl-static-data.vercel.app/2025-2026/bootstrap-static.json")
    );
    assert_eq!(p.plan.snapshot_key, Some(SnapshotKey::BootstrapStatic));
    assert_eq!(p.cache_key.as_deref(), Some("bootstrap-static"));
}

#[test]
fn plan_urls_for_fixtures_is_uncached() {
    let p = plan_for(&ResourceRequest::Fixtures);
    assert_eq!(p.plan.primary_url, "https://fantasy.premierleague.com/api/fixtures/");
    assert_eq!(
        p.plan.mirror_url.as_deref(),
        Some("https://fpl-static-data.vercel.app/2025-2026/fixtures.json")
    );
    assert_eq!(p.plan.snapshot_key, Some(SnapshotKey::Fixtures));
    assert_eq!(p.cache_key, None);
}

#[test]
fn plan_urls_for_parameterised_resources() {
    let p = plan_for(&ResourceRequest::ElementSummary { id: "42".to_owned() });
    assert_eq!(p.plan.primary_url, "https://fantasy.premierleague.com/api/element-summary/42/");
    assert_eq!(p.plan.mirror_url, None);
    assert_eq!(p.plan.snapshot_key, None);
    assert_eq!(p.cache_key, None);

    let p = plan_for(&ResourceRequest::LiveEvent { gw: "7".to_owned() });
    assert_eq!(p.plan.primary_url, "https://fantasy.premierleague.com/api/event/7/live/");
    assert_eq!(p.plan.snapshot_key, Some(SnapshotKey::LiveEvent));
    assert_eq!(p.cache_key.as_deref(), Some("live-event-7"));

    let p = plan_for(&ResourceRequest::Picks { manager_id: "123".to_owned(), gw: "8".to_owned() });
    assert_eq!(
        p.plan.primary_url,
        "https://fantasy.premierleague.com/api/entry/123/event/8/picks/"
    );
    assert_eq!(p.cache_key.as_deref(), Some("picks/123/8"));

    let p = plan_for(&ResourceRequest::ManagerInfo { id: "55".to_owned() });
    assert_eq!(p.plan.primary_url, "https://fantasy.premierleague.com/api/entry/55/");
    let p = plan_for(&ResourceRequest::ManagerTransfers { id: "55".to_owned() });
    assert_eq!(p.plan.primary_url, "https://fantasy.premierleague.com/api/entry/55/transfers/");
    let p = plan_for(&ResourceRequest::ManagerHistory { id: "55".to_owned() });
    assert_eq!(p.plan.primary_url, "https://fantasy.premierleague.com/api/entry/55/history/");

    let p = plan_for(&ResourceRequest::LeagueStandings {
        league_id: "99".to_owned(),
        page: "2".to_owned(),
    });
    assert_eq!(
        p.plan.primary_url,
        "https://fantasy.premierleague.com/api/leagues-classic/99/standings/?page_standings=2"
    );
    let p = plan_for(&ResourceRequest::LeagueStandingsByPhase {
        league_id: "99".to_owned(),
        phase: "3".to_owned(),
    });
    assert_eq!(
        p.plan.primary_url,
        "https://fantasy.premierleague.com/api/leagues-classic/99/standings/?page_standings=1&phase=3"
    );
}

#[test]
fn picks_cache_keys_never_collide() {
    let a = plan_for(&ResourceRequest::Picks { manager_id: "1-2".to_owned(), gw: "3".to_owned() });
    let b = plan_for(&ResourceRequest::Picks { manager_id: "1".to_owned(), gw: "2-3".to_owned() });
    assert_ne!(a.cache_key, b.cache_key);
    let a = match route("/picks/1-2/3") {
        Ok(RouteTarget::Resource(r)) => plan_for(&r).cache_key,
        other => panic!("expected a picks resource, got {other:?}"),
    };
    let b = match route("/picks/1/2-3") {
        Ok(RouteTarget::Resource(r)) => plan_for(&r).cache_key,
        other => panic!("expected a picks resource, got {other:?}"),
    };
    assert_ne!(a, b);
}

#[test]
fn snapshot_store_serves_loaded_keys() {
    let store = SnapshotStore::load(Some("{\"events\":[]}"), Some("[]"), None);
    assert_eq!(store.lookup(SnapshotKey::BootstrapStatic), Some(val("{\"events\":[]}")));
    assert_eq!(store.lookup(SnapshotKey::Fixtures), Some(val("[]")));
    assert_eq!(store.lookup(SnapshotKey::LiveEvent), None);
}

#[test]
fn snapshot_store_degrades_unparsable_text() {
    let store = SnapshotStore::load(Some("not json"), None, Some("{\"elements\":[]}"));
    assert_eq!(store.lookup(SnapshotKey::BootstrapStatic), None);
    assert_eq!(store.lookup(SnapshotKey::Fixtures), None);
    assert_eq!(store.lookup(SnapshotKey::LiveEvent), Some(val("{\"elements\":[]}")));
}
