use vstd::prelude::*;
use vstd::string::StringExecFns;
use crate::resolver::FallbackPlan;
use crate::snapshot::SnapshotKey;
use crate::strutil::{free_of, lemma_prepend_cancel, lemma_sep_cancel};

verus! {

/// The base URL of the primary upstream API.
pub const PRIMARY_API_BASE: &'static str = "https://fantasy.premierleague.com/api";

/// The base URL of the mirror, which lays resources out by season.
pub const MIRROR_API_BASE: &'static str = "https://fpl-static-data.vercel.app";

/// The season segment of the mirror's path layout.
pub const MIRROR_SEASON: &'static str = "2025-2026";

/// One logical resource request, with its path parameters already
/// extracted. Parameters are carried verbatim into the upstream URLs.
#[derive(Debug)]
pub enum ResourceRequest {
    BootstrapStatic,
    Fixtures,
    ElementSummary { id: String },
    LiveEvent { gw: String },
    Picks { manager_id: String, gw: String },
    ManagerInfo { id: String },
    ManagerTransfers { id: String },
    ManagerHistory { id: String },
    LeagueStandings { league_id: String, page: String },
    LeagueStandingsByPhase { league_id: String, phase: String },
}

/// Everything the proxy needs to serve one request: the fallback chain to
/// resolve it, and the key to cache it under — or no key at all for the
/// resources that must not be cached.
pub struct RequestPlan {
    pub plan: FallbackPlan,
    pub cache_key: Option<String>,
}

/// The primary upstream URL for a request.
pub open spec fn spec_primary_url(req: ResourceRequest) -> Seq<char> {
    match req {
        ResourceRequest::BootstrapStatic => PRIMARY_API_BASE@ + "/bootstrap-static/"@,
        ResourceRequest::Fixtures => PRIMARY_API_BASE@ + "/fixtures/"@,
        ResourceRequest::ElementSummary { id } => PRIMARY_API_BASE@ + "/element-summary/"@ + id@
            + "/"@,
        ResourceRequest::LiveEvent { gw } => PRIMARY_API_BASE@ + "/event/"@ + gw@ + "/live/"@,
        ResourceRequest::Picks { manager_id, gw } => PRIMARY_API_BASE@ + "/entry/"@ + manager_id@
            + "/event/"@ + gw@ + "/picks/"@,
        ResourceRequest::ManagerInfo { id } => PRIMARY_API_BASE@ + "/entry/"@ + id@ + "/"@,
        ResourceRequest::ManagerTransfers { id } => PRIMARY_API_BASE@ + "/entry/"@ + id@
            + "/transfers/"@,
        ResourceRequest::ManagerHistory { id } => PRIMARY_API_BASE@ + "/entry/"@ + id@
            + "/history/"@,
        ResourceRequest::LeagueStandings { league_id, page } => PRIMARY_API_BASE@
            + "/leagues-classic/"@ + league_id@ + "/standings/?page_standings="@ + page@,
        ResourceRequest::LeagueStandingsByPhase { league_id, phase } => PRIMARY_API_BASE@
            + "/leagues-classic/"@ + league_id@ + "/standings/?page_standings=1&phase="@ + phase@,
    }
}

/// The mirror URL for a request, for the resources that have one.
pub open spec fn spec_mirror_url(req: ResourceRequest) -> Option<Seq<char>> {
    match req {
        ResourceRequest::BootstrapStatic => Some(
            MIRROR_API_BASE@ + "/"@ + MIRROR_SEASON@ + "/bootstrap-static.json"@,
        ),
        ResourceRequest::Fixtures => Some(
            MIRROR_API_BASE@ + "/"@ + MIRROR_SEASON@ + "/fixtures.json"@,
        ),
        _ => None,
    }
}

/// The snapshot key for a request, for the resources with a bundled
/// last-resort payload.
pub open spec fn spec_snapshot_key(req: ResourceRequest) -> Option<SnapshotKey> {
    match req {
        ResourceRequest::BootstrapStatic => Some(SnapshotKey::BootstrapStatic),
        ResourceRequest::Fixtures => Some(SnapshotKey::Fixtures),
        ResourceRequest::LiveEvent { .. } => Some(SnapshotKey::LiveEvent),
        _ => None,
    }
}

/// The cache key for a request, for the cacheable resources. Identical
/// logical queries share a key and distinct ones never collide: the picks
/// key separates its two parameters with `/`, which no path segment can
/// contain (see `lemma_cache_key_injective`).
pub open spec fn spec_cache_key(req: ResourceRequest) -> Option<Seq<char>> {
    match req {
        ResourceRequest::BootstrapStatic => Some("bootstrap-static"@),
        ResourceRequest::LiveEvent { gw } => Some("live-event-"@ + gw@),
        ResourceRequest::Picks { manager_id, gw } => Some(
            "picks/"@ + manager_id@ + "/"@ + gw@,
        ),
        _ => None,
    }
}

/// The declarative handler table: map a request to its fallback chain and
/// cache key. Pure mapping logic; no I/O happens here.
pub fn plan_for(req: &ResourceRequest) -> (r: RequestPlan)
    ensures
        r.plan.primary_url@ == spec_primary_url(*req),
        (match r.plan.mirror_url {
            Some(m) => spec_mirror_url(*req) == Some(m@),
            None => spec_mirror_url(*req) is None,
        }),
        r.plan.snapshot_key == spec_snapshot_key(*req),
        (match r.cache_key {
            Some(c) => spec_cache_key(*req) == Some(c@),
            None => spec_cache_key(*req) is None,
        }),
{
    match req {
        ResourceRequest::BootstrapStatic => {
            let mut primary = PRIMARY_API_BASE.to_owned();
            primary.append("/bootstrap-static/");
            let mut mirror = MIRROR_API_BASE.to_owned();
            mirror.append("/");
            mirror.append(MIRROR_SEASON);
            mirror.append("/bootstrap-static.json");
            RequestPlan {
                plan: FallbackPlan {
                    primary_url: primary,
                    mirror_url: Some(mirror),
                    snapshot_key: Some(SnapshotKey::BootstrapStatic),
                },
                cache_key: Some("bootstrap-static".to_owned()),
            }
        },
        ResourceRequest::Fixtures => {
            let mut primary = PRIMARY_API_BASE.to_owned();
            primary.append("/fixtures/");
            let mut mirror = MIRROR_API_BASE.to_owned();
            mirror.append("/");
            mirror.append(MIRROR_SEASON);
            mirror.append("/fixtures.json");
            RequestPlan {
                plan: FallbackPlan {
                    primary_url: primary,
                    mirror_url: Some(mirror),
                    snapshot_key: Some(SnapshotKey::Fixtures),
                },
                cache_key: None,
            }
        },
        ResourceRequest::ElementSummary { id } => {
            let mut primary = PRIMARY_API_BASE.to_owned();
            primary.append("/element-summary/");
            primary.append(id.as_str());
            primary.append("/");
            RequestPlan {
                plan: FallbackPlan {
                    primary_url: primary,
                    mirror_url: None,
                    snapshot_key: None,
                },
                cache_key: None,
            }
        },
        ResourceRequest::LiveEvent { gw } => {
            let mut primary = PRIMARY_API_BASE.to_owned();
            primary.append("/event/");
            primary.append(gw.as_str());
            primary.append("/live/");
            let mut key = "live-event-".to_owned();
            key.append(gw.as_str());
            RequestPlan {
                plan: FallbackPlan {
                    primary_url: primary,
                    mirror_url: None,
                    snapshot_key: Some(SnapshotKey::LiveEvent),
                },
                cache_key: Some(key),
            }
        },
        ResourceRequest::Picks { manager_id, gw } => {
            let mut primary = PRIMARY_API_BASE.to_owned();
            primary.append("/entry/");
            primary.append(manager_id.as_str());
            primary.append("/event/");
            primary.append(gw.as_str());
            primary.append("/picks/");
            let mut key = "picks/".to_owned();
            key.append(manager_id.as_str());
            key.append("/");
            key.append(gw.as_str());
            RequestPlan {
                plan: FallbackPlan {
                    primary_url: primary,
                    mirror_url: None,
                    snapshot_key: None,
                },
                cache_key: Some(key),
            }
        },
        ResourceRequest::ManagerInfo { id } => {
            let mut primary = PRIMARY_API_BASE.to_owned();
            primary.append("/entry/");
            primary.append(id.as_str());
            primary.append("/");
            RequestPlan {
                plan: FallbackPlan {
                    primary_url: primary,
                    mirror_url: None,
                    snapshot_key: None,
                },
                cache_key: None,
            }
        },
        ResourceRequest::ManagerTransfers { id } => {
            let mut primary = PRIMARY_API_BASE.to_owned();
            primary.append("/entry/");
            primary.append(id.as_str());
            primary.append("/transfers/");
            RequestPlan {
                plan: FallbackPlan {
                    primary_url: primary,
                    mirror_url: None,
                    snapshot_key: None,
                },
                cache_key: None,
            }
        },
        ResourceRequest::ManagerHistory { id } => {
            let mut primary = PRIMARY_API_BASE.to_owned();
            primary.append("/entry/");
            primary.append(id.as_str());
            primary.append("/history/");
            RequestPlan {
                plan: FallbackPlan {
                    primary_url: primary,
                    mirror_url: None,
                    snapshot_key: None,
                },
                cache_key: None,
            }
        },
        ResourceRequest::LeagueStandings { league_id, page } => {
            let mut primary = PRIMARY_API_BASE.to_owned();
            primary.append("/leagues-classic/");
            primary.append(league_id.as_str());
            primary.append("/standings/?page_standings=");
            primary.append(page.as_str());
            RequestPlan {
                plan: FallbackPlan {
                    primary_url: primary,
                    mirror_url: None,
                    snapshot_key: None,
                },
                cache_key: None,
            }
        },
        ResourceRequest::LeagueStandingsByPhase { league_id, phase } => {
            let mut primary = PRIMARY_API_BASE.to_owned();
            primary.append("/leagues-classic/");
            primary.append(league_id.as_str());
            primary.append("/standings/?page_standings=1&phase=");
            primary.append(phase.as_str());
            RequestPlan {
                plan: FallbackPlan {
                    primary_url: primary,
                    mirror_url: None,
                    snapshot_key: None,
                },
                cache_key: None,
            }
        },
    }
}

/// Whether two requests are the same cacheable logical query: the same
/// resource with, character for character, the same parameters.
pub open spec fn same_cacheable_query(r1: ResourceRequest, r2: ResourceRequest) -> bool {
    match (r1, r2) {
        (ResourceRequest::BootstrapStatic, ResourceRequest::BootstrapStatic) => true,
        (
            ResourceRequest::LiveEvent { gw: g1 },
            ResourceRequest::LiveEvent { gw: g2 },
        ) => g1@ == g2@,
        (
            ResourceRequest::Picks { manager_id: m1, gw: g1 },
            ResourceRequest::Picks { manager_id: m2, gw: g2 },
        ) => m1@ == m2@ && g1@ == g2@,
        _ => false,
    }
}

/// The picks parameters contain no path separator. The router guarantees
/// this of every request it produces (each parameter is one segment of the
/// split path); it is what makes the composite picks key unambiguous.
pub open spec fn picks_params_slash_free(req: ResourceRequest) -> bool {
    req matches ResourceRequest::Picks { manager_id, gw } ==> free_of(manager_id@, '/')
        && free_of(gw@, '/')
}

/// Cache keys identify logical queries: among requests whose parameters
/// are path segments, as the router produces them, two cacheable requests
/// share a cache key exactly when they are the same logical query —
/// identical queries always produce identical keys, distinct queries never
/// collide.
pub proof fn lemma_cache_key_injective(r1: ResourceRequest, r2: ResourceRequest)
    requires
        picks_params_slash_free(r1),
        picks_params_slash_free(r2),
    ensures
        (match (spec_cache_key(r1), spec_cache_key(r2)) {
            (Some(k1), Some(k2)) => (k1 == k2) == same_cacheable_query(r1, r2),
            _ => true,
        }),
{
    reveal_strlit("bootstrap-static");
    reveal_strlit("live-event-");
    reveal_strlit("picks/");
    reveal_strlit("/");
    assert("bootstrap-static"@.len() == 16);
    assert("live-event-"@.len() == 11);
    assert("picks/"@.len() == 6);
    assert("/"@.len() == 1);
    assert("bootstrap-static"@[0] == 'b');
    assert("live-event-"@[0] == 'l');
    assert("picks/"@[0] == 'p');
    assert("/"@[0] == '/');
    assert("/"@ =~= seq!['/']);
    match (r1, r2) {
        (ResourceRequest::LiveEvent { gw: g1 }, ResourceRequest::LiveEvent { gw: g2 }) => {
            if "live-event-"@ + g1@ == "live-event-"@ + g2@ {
                lemma_prepend_cancel("live-event-"@, g1@, g2@);
            }
        },
        (
            ResourceRequest::Picks { manager_id: m1, gw: g1 },
            ResourceRequest::Picks { manager_id: m2, gw: g2 },
        ) => {
            if "picks/"@ + m1@ + "/"@ + g1@ == "picks/"@ + m2@ + "/"@ + g2@ {
                assert("picks/"@ + m1@ + "/"@ + g1@ =~= "picks/"@ + (m1@ + "/"@ + g1@));
                assert("picks/"@ + m2@ + "/"@ + g2@ =~= "picks/"@ + (m2@ + "/"@ + g2@));
                lemma_prepend_cancel("picks/"@, m1@ + "/"@ + g1@, m2@ + "/"@ + g2@);
                lemma_sep_cancel(m1@, g1@, m2@, g2@, '/');
            }
        },
        (ResourceRequest::BootstrapStatic, ResourceRequest::LiveEvent { gw: g2 }) => {
            if "bootstrap-static"@ == "live-event-"@ + g2@ {
                assert(("live-event-"@ + g2@)[0] == 'l');
                assert(false);
            }
        },
        (ResourceRequest::LiveEvent { gw: g1 }, ResourceRequest::BootstrapStatic) => {
            if "live-event-"@ + g1@ == "bootstrap-static"@ {
                assert(("live-event-"@ + g1@)[0] == 'l');
                assert(false);
            }
        },
        (ResourceRequest::BootstrapStatic, ResourceRequest::Picks { manager_id: m2, gw: g2 }) => {
            if "bootstrap-static"@ == "picks/"@ + m2@ + "/"@ + g2@ {
                assert(("picks/"@ + m2@ + "/"@ + g2@)[0] == 'p');
                assert(false);
            }
        },
        (ResourceRequest::Picks { manager_id: m1, gw: g1 }, ResourceRequest::BootstrapStatic) => {
            if "picks/"@ + m1@ + "/"@ + g1@ == "bootstrap-static"@ {
                assert(("picks/"@ + m1@ + "/"@ + g1@)[0] == 'p');
                assert(false);
            }
        },
        (
            ResourceRequest::LiveEvent { gw: g1 },
            ResourceRequest::Picks { manager_id: m2, gw: g2 },
        ) => {
            if "live-event-"@ + g1@ == "picks/"@ + m2@ + "/"@ + g2@ {
                assert(("live-event-"@ + g1@)[0] == 'l');
                assert(("picks/"@ + m2@ + "/"@ + g2@)[0] == 'p');
                assert(false);
            }
        },
        (
            ResourceRequest::Picks { manager_id: m1, gw: g1 },
            ResourceRequest::LiveEvent { gw: g2 },
        ) => {
            if "picks/"@ + m1@ + "/"@ + g1@ == "live-event-"@ + g2@ {
                assert(("picks/"@ + m1@ + "/"@ + g1@)[0] == 'p');
                assert(("live-event-"@ + g2@)[0] == 'l');
                assert(false);
            }
        },
        _ => {},
    }
}

} // verus!
