use vstd::prelude::*;
use crate::payload::{parse_json, parsed_json};

verus! {

/// The closed set of resources for which a bundled snapshot may exist.
#[derive(Clone, Copy, Debug, PartialEq, Eq, Structural)]
pub enum SnapshotKey {
    BootstrapStatic,
    Fixtures,
    LiveEvent,
}

/// Last-resort read-only store of pre-captured JSON payloads, keyed by the
/// closed set of snapshot keys, loaded once and never modified.
pub struct SnapshotStore {
    bootstrap_static: Option<serde_json::Value>,
    fixtures: Option<serde_json::Value>,
    live_event: Option<serde_json::Value>,
}

/// What one bundled text contributes to the store: its parsed payload when
/// it is present and is valid JSON, otherwise a permanently absent key.
pub open spec fn spec_load_one(text: Option<&str>) -> Option<serde_json::Value> {
    match text {
        Some(s) => parsed_json(s@),
        None => None,
    }
}

impl SnapshotStore {
    /// The payload stored under a key, if any.
    pub closed spec fn entry(self, k: SnapshotKey) -> Option<serde_json::Value> {
        match k {
            SnapshotKey::BootstrapStatic => self.bootstrap_static,
            SnapshotKey::Fixtures => self.fixtures,
            SnapshotKey::LiveEvent => self.live_event,
        }
    }

    /// Build the store from the bundled snapshot texts. A missing text, or
    /// one that fails to parse, degrades only its own key to absent.
    pub fn load(
        bootstrap_static: Option<&str>,
        fixtures: Option<&str>,
        live_event: Option<&str>,
    ) -> (r: SnapshotStore)
        ensures
            r.entry(SnapshotKey::BootstrapStatic) == spec_load_one(bootstrap_static),
            r.entry(SnapshotKey::Fixtures) == spec_load_one(fixtures),
            r.entry(SnapshotKey::LiveEvent) == spec_load_one(live_event),
    {
        SnapshotStore {
            bootstrap_static: Self::load_one(bootstrap_static),
            fixtures: Self::load_one(fixtures),
            live_event: Self::load_one(live_event),
        }
    }

    fn load_one(text: Option<&str>) -> (r: Option<serde_json::Value>)
        ensures
            r == spec_load_one(text),
    {
        match text {
            Some(s) => parse_json(s),
            None => None,
        }
    }

    /// Look a key up; unknown or degraded keys report absence. The caller
    /// receives a copy, never a handle into the store.
    pub fn lookup(&self, k: SnapshotKey) -> (r: Option<serde_json::Value>)
        ensures
            r == self.entry(k),
    {
        let slot = match k {
            SnapshotKey::BootstrapStatic => &self.bootstrap_static,
            SnapshotKey::Fixtures => &self.fixtures,
            SnapshotKey::LiveEvent => &self.live_event,
        };
        match slot {
            Some(v) => Some(v.clone()),
            None => None,
        }
    }
}

} // verus!
