//! A read-through caching proxy core for an upstream sports-data JSON API.
//!
//! The crate decides, for each logical resource, whether to serve from a
//! bounded time-expiring cache, fetch from the primary upstream, fall back
//! to a mirror, or fall back to a bundled snapshot. All decision logic is
//! verified; network and process plumbing live outside the library.

mod cache;
mod error;
mod handlers;
mod outcome;
mod payload;
mod resolver;
mod router;
mod snapshot;
mod strutil;

pub use cache::{CacheEntry, PayloadCache, CACHE_MAX_ENTRIES, CACHE_TTL_SECONDS};
pub use error::ProxyError;
pub use handlers::{plan_for, RequestPlan, ResourceRequest, MIRROR_API_BASE, MIRROR_SEASON, PRIMARY_API_BASE};
pub use outcome::{classify_response, classify_transport_failure, FetchOutcome};
pub use payload::parse_json;
pub use resolver::{Action, FallbackPlan, Phase, Resolver};
pub use router::{extract_path_param, route, RouteTarget, RouteView};
pub use snapshot::{SnapshotKey, SnapshotStore};
pub use strutil::str_eq;
