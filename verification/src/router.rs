use vstd::prelude::*;
use vstd::string::StrSliceExecFns;
use crate::error::ProxyError;
use crate::handlers::ResourceRequest;
use crate::strutil::{
    free_of, lemma_split_segments_free, seq_views, spec_split, spec_starts_with, split_char,
    starts_with, str_eq,
};

verus! {

/// What a routed request asks for: the built-in health probe, or one of
/// the proxied logical resources.
#[derive(Debug)]
pub enum RouteTarget {
    Health,
    Resource(ResourceRequest),
}

/// A pattern segment of the form `:name` stands for the path parameter
/// called `name`.
pub open spec fn is_param_marker(seg: Seq<char>, param: Seq<char>) -> bool {
    seg.len() >= 1 && seg[0] == ':' && seg.subrange(1, seg.len() as int) == param
}

/// The index of the first pattern segment that stands for `param`, or -1
/// when none does.
pub open spec fn spec_param_index(pp: Seq<Seq<char>>, param: Seq<char>) -> int
    decreases pp.len(),
{
    if pp.len() == 0 {
        -1
    } else if is_param_marker(pp[0], param) {
        0
    } else {
        let r = spec_param_index(pp.drop_first(), param);
        if r < 0 {
            -1
        } else {
            r + 1
        }
    }
}

proof fn lemma_param_index_from(pp: Seq<Seq<char>>, param: Seq<char>, i: int)
    requires
        0 <= i <= pp.len(),
        forall|j: int| 0 <= j < i ==> !is_param_marker(pp[j], param),
    ensures
        i == pp.len() ==> spec_param_index(pp, param) == -1,
        i < pp.len() && is_param_marker(pp[i], param) ==> spec_param_index(pp, param) == i,
    decreases i,
{
    if i > 0 {
        let t = pp.drop_first();
        assert forall|j: int| 0 <= j < i - 1 implies !is_param_marker(t[j], param) by {
            assert(t[j] == pp[j + 1]);
        }
        lemma_param_index_from(t, param, i - 1);
        if i < pp.len() {
            assert(t[i - 1] == pp[i]);
        }
    }
}

/// The URI segment standing where the pattern names `param`: the two paths
/// are split on `/`; they must have the same number of segments, and the
/// first pattern segment of the form `:param` selects the URI segment at
/// its position.
pub open spec fn spec_extract_path_param(
    uri: Seq<char>,
    pattern: Seq<char>,
    param: Seq<char>,
) -> Option<Seq<char>> {
    let up = spec_split(uri, '/');
    let pp = spec_split(pattern, '/');
    if up.len() != pp.len() {
        None
    } else {
        let i = spec_param_index(pp, param);
        if i < 0 {
            None
        } else {
            Some(up[i])
        }
    }
}

/// Extract a named path parameter from a URI, guided by a pattern whose
/// `:name` segments mark parameter positions.
pub fn extract_path_param(uri: &str, pattern: &str, param_name: &str) -> (r: Option<String>)
    ensures
        (match r {
            Some(v) => spec_extract_path_param(uri@, pattern@, param_name@) == Some(v@),
            None => spec_extract_path_param(uri@, pattern@, param_name@) is None,
        }),
{
    let uri_parts = split_char(uri, '/');
    let pattern_parts = split_char(pattern, '/');
    if uri_parts.len() != pattern_parts.len() {
        return None;
    }
    let n = pattern_parts.len();
    let mut i: usize = 0;
    while i < n
        invariant
            n == pattern_parts@.len(),
            i <= n,
            seq_views(uri_parts@) == spec_split(uri@, '/'),
            seq_views(pattern_parts@) == spec_split(pattern@, '/'),
            uri_parts@.len() == pattern_parts@.len(),
            forall|j: int|
                0 <= j < i ==> !is_param_marker(seq_views(pattern_parts@)[j], param_name@),
        decreases n - i,
    {
        let seg = &pattern_parts[i];
        let seg_len = seg.as_str().unicode_len();
        let marker: bool = if seg_len >= 1 && seg.as_str().get_char(0) == ':' {
            str_eq(seg.as_str().substring_char(1, seg_len), param_name)
        } else {
            false
        };
        if marker {
            proof {
                lemma_param_index_from(seq_views(pattern_parts@), param_name@, i as int);
            }
            return Some(uri_parts[i].clone());
        }
        i += 1;
    }
    proof {
        lemma_param_index_from(seq_views(pattern_parts@), param_name@, n as int);
    }
    None
}

/// The spec-level mirror of a routing decision, over character sequences.
pub enum RouteView {
    Health,
    BootstrapStatic,
    Fixtures,
    ElementSummary(Seq<char>),
    LiveEvent(Seq<char>),
    Picks(Seq<char>, Seq<char>),
    ManagerInfo(Seq<char>),
    ManagerTransfers(Seq<char>),
    ManagerHistory(Seq<char>),
    LeagueStandings(Seq<char>, Seq<char>),
    LeagueStandingsByPhase(Seq<char>, Seq<char>),
    Rejected(ProxyError),
}

/// How a concrete routing result reads as a `RouteView`.
pub open spec fn route_view(r: Result<RouteTarget, ProxyError>) -> RouteView {
    match r {
        Err(e) => RouteView::Rejected(e),
        Ok(RouteTarget::Health) => RouteView::Health,
        Ok(RouteTarget::Resource(req)) => match req {
            ResourceRequest::BootstrapStatic => RouteView::BootstrapStatic,
            ResourceRequest::Fixtures => RouteView::Fixtures,
            ResourceRequest::ElementSummary { id } => RouteView::ElementSummary(id@),
            ResourceRequest::LiveEvent { gw } => RouteView::LiveEvent(gw@),
            ResourceRequest::Picks { manager_id, gw } => RouteView::Picks(manager_id@, gw@),
            ResourceRequest::ManagerInfo { id } => RouteView::ManagerInfo(id@),
            ResourceRequest::ManagerTransfers { id } => RouteView::ManagerTransfers(id@),
            ResourceRequest::ManagerHistory { id } => RouteView::ManagerHistory(id@),
            ResourceRequest::LeagueStandings { league_id, page } => RouteView::LeagueStandings(
                league_id@,
                page@,
            ),
            ResourceRequest::LeagueStandingsByPhase {
                league_id,
                phase,
            } => RouteView::LeagueStandingsByPhase(league_id@, phase@),
        },
    }
}

/// The routing table, as a function of the request path: fixed paths for
/// the health probe and the parameterless resources, then pattern matches
/// for the parameterised ones, in a fixed order; anything else is
/// unroutable.
pub open spec fn spec_route(path: Seq<char>) -> RouteView {
    if path == "/health"@ {
        RouteView::Health
    } else if path == "/bootstrap-static"@ {
        RouteView::BootstrapStatic
    } else if path == "/fixtures"@ {
        RouteView::Fixtures
    } else if spec_starts_with(path, "/element-summary/"@) {
        match spec_extract_path_param(path, "/element-summary/:id"@, "id"@) {
            Some(v) => RouteView::ElementSummary(v),
            None => RouteView::Rejected(ProxyError::InvalidElementId),
        }
    } else if spec_starts_with(path, "/live-event/"@) {
        match spec_extract_path_param(path, "/live-event/:gw"@, "gw"@) {
            Some(v) => RouteView::LiveEvent(v),
            None => RouteView::Rejected(ProxyError::InvalidGameweek),
        }
    } else if spec_starts_with(path, "/picks/"@) {
        let parts = spec_split(path, '/');
        if parts.len() == 4 && parts[1] == "picks"@ {
            RouteView::Picks(parts[2], parts[3])
        } else {
            RouteView::Rejected(ProxyError::InvalidPicksPath)
        }
    } else if spec_starts_with(path, "/manager/"@) {
        let parts = spec_split(path, '/');
        if parts.len() == 3 {
            RouteView::ManagerInfo(parts[2])
        } else if parts.len() == 4 {
            if parts[3] == "transfers"@ {
                RouteView::ManagerTransfers(parts[2])
            } else if parts[3] == "history"@ {
                RouteView::ManagerHistory(parts[2])
            } else {
                RouteView::Rejected(ProxyError::InvalidManagerEndpoint)
            }
        } else {
            RouteView::Rejected(ProxyError::InvalidManagerPath)
        }
    } else if spec_starts_with(path, "/league/"@) {
        let parts = spec_split(path, '/');
        if parts.len() == 4 && parts[1] == "league"@ {
            RouteView::LeagueStandings(parts[2], parts[3])
        } else if parts.len() == 5 && parts[1] == "league"@ && parts[2] == "mon"@ {
            RouteView::LeagueStandingsByPhase(parts[3], parts[4])
        } else {
            RouteView::Rejected(ProxyError::InvalidLeaguePath)
        }
    } else {
        RouteView::Rejected(ProxyError::NotFound)
    }
}

/// Map a request path to its route target, or to the error the path
/// earns: a matching route with a malformed remainder reports the route's
/// own parameter error, and an unknown path is simply not found.
pub fn route(path: &str) -> (r: Result<RouteTarget, ProxyError>)
    ensures
        route_view(r) == spec_route(path@),
{
    if str_eq(path, "/health") {
        Ok(RouteTarget::Health)
    } else if str_eq(path, "/bootstrap-static") {
        Ok(RouteTarget::Resource(ResourceRequest::BootstrapStatic))
    } else if str_eq(path, "/fixtures") {
        Ok(RouteTarget::Resource(ResourceRequest::Fixtures))
    } else if starts_with(path, "/element-summary/") {
        match extract_path_param(path, "/element-summary/:id", "id") {
            Some(id) => Ok(RouteTarget::Resource(ResourceRequest::ElementSummary { id })),
            None => Err(ProxyError::InvalidElementId),
        }
    } else if starts_with(path, "/live-event/") {
        match extract_path_param(path, "/live-event/:gw", "gw") {
            Some(gw) => Ok(RouteTarget::Resource(ResourceRequest::LiveEvent { gw })),
            None => Err(ProxyError::InvalidGameweek),
        }
    } else if starts_with(path, "/picks/") {
        let parts = split_char(path, '/');
        if parts.len() == 4 && str_eq(parts[1].as_str(), "picks") {
            Ok(
                RouteTarget::Resource(
                    ResourceRequest::Picks {
                        manager_id: parts[2].clone(),
                        gw: parts[3].clone(),
                    },
                ),
            )
        } else {
            Err(ProxyError::InvalidPicksPath)
        }
    } else if starts_with(path, "/manager/") {
        let parts = split_char(path, '/');
        if parts.len() == 3 {
            Ok(RouteTarget::Resource(ResourceRequest::ManagerInfo { id: parts[2].clone() }))
        } else if parts.len() == 4 {
            if str_eq(parts[3].as_str(), "transfers") {
                Ok(
                    RouteTarget::Resource(
                        ResourceRequest::ManagerTransfers { id: parts[2].clone() },
                    ),
                )
            } else if str_eq(parts[3].as_str(), "history") {
                Ok(
                    RouteTarget::Resource(
                        ResourceRequest::ManagerHistory { id: parts[2].clone() },
                    ),
                )
            } else {
                Err(ProxyError::InvalidManagerEndpoint)
            }
        } else {
            Err(ProxyError::InvalidManagerPath)
        }
    } else if starts_with(path, "/league/") {
        let parts = split_char(path, '/');
        if parts.len() == 4 && str_eq(parts[1].as_str(), "league") {
            Ok(
                RouteTarget::Resource(
                    ResourceRequest::LeagueStandings {
                        league_id: parts[2].clone(),
                        page: parts[3].clone(),
                    },
                ),
            )
        } else if parts.len() == 5 && str_eq(parts[1].as_str(), "league") && str_eq(
            parts[2].as_str(),
            "mon",
        ) {
            Ok(
                RouteTarget::Resource(
                    ResourceRequest::LeagueStandingsByPhase {
                        league_id: parts[3].clone(),
                        phase: parts[4].clone(),
                    },
                ),
            )
        } else {
            Err(ProxyError::InvalidLeaguePath)
        }
    } else {
        Err(ProxyError::NotFound)
    }
}

/// Every parameter the router extracts for a picks request is one segment
/// of the path split on `/`, so neither can contain the separator: the
/// fact that makes the composite picks cache key unambiguous (see
/// `lemma_cache_key_injective`).
pub proof fn lemma_route_picks_params_slash_free(path: Seq<char>)
    ensures
        spec_route(path) matches RouteView::Picks(m, g) ==> free_of(m, '/') && free_of(g, '/'),
{
    lemma_split_segments_free(path, '/');
}

} // verus!
