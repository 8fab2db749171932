use vstd::prelude::*;
use crate::error::ProxyError;
use crate::outcome::FetchOutcome;
use crate::snapshot::SnapshotKey;

verus! {

/// One resolution's fallback chain: the primary URL, an optional mirror URL,
/// and an optional key into the bundled snapshot store. Built fresh per
/// request by a resource handler; never persisted.
pub struct FallbackPlan {
    pub primary_url: String,
    pub mirror_url: Option<String>,
    pub snapshot_key: Option<SnapshotKey>,
}

/// Where a resolution stands in its chain.
#[derive(Clone, Copy, Debug, PartialEq, Eq, Structural)]
pub enum Phase {
    /// Waiting for the outcome of the primary fetch.
    Primary,
    /// Waiting for the outcome of the mirror fetch.
    Mirror,
    /// Waiting for the result of the snapshot lookup.
    Snapshot,
    /// A terminal result has been produced.
    Finished,
}

/// What the resolver asks its driver to do next. The driver performs the
/// I/O the action names and feeds the result back; `Done` ends the chain.
#[derive(Debug)]
pub enum Action {
    /// Perform one HTTP GET against this URL and report its outcome.
    Fetch(String),
    /// Look this key up in the local snapshot store and report the result.
    Lookup(SnapshotKey),
    /// The chain is over: the payload, or the terminal error.
    Done(Result<serde_json::Value, ProxyError>),
}

/// The tiered resolver: it tries the primary URL, then the mirror if one is
/// configured, then — only when the primary's failure signalled overload —
/// the local snapshot, and returns the first success, otherwise a single
/// terminal exhaustion error. Each URL is attempted exactly once. The
/// resolver performs no I/O itself: every step names the next action and
/// the driver feeds the result back.
pub struct Resolver {
    pub plan: FallbackPlan,
    pub overload_seen: bool,
    pub phase: Phase,
}

/// The state and first action of a fresh resolution: fetch the primary.
pub open spec fn spec_start(plan: FallbackPlan) -> (Resolver, Action) {
    (
        Resolver { plan: plan, overload_seen: false, phase: Phase::Primary },
        Action::Fetch(plan.primary_url),
    )
}

/// Where the chain goes once the fetch tiers are exhausted: the snapshot
/// tier when (and only when) the overload signal is set and a snapshot key
/// is configured, else the terminal exhaustion error.
pub open spec fn spec_fail_over(r: Resolver, overload: bool) -> (Resolver, Action) {
    if overload && r.plan.snapshot_key is Some {
        match r.plan.snapshot_key {
            Some(k) => (
                Resolver { overload_seen: overload, phase: Phase::Snapshot, ..r },
                Action::Lookup(k),
            ),
            None => (r, Action::Done(Err(ProxyError::Exhausted))),
        }
    } else {
        (
            Resolver { overload_seen: overload, phase: Phase::Finished, ..r },
            Action::Done(Err(ProxyError::Exhausted)),
        )
    }
}

/// The transition taken on the outcome of a primary or mirror fetch: a
/// success ends the chain with that payload; a primary failure records the
/// overload signal and moves to the mirror if one is configured; otherwise
/// the chain falls over to `spec_fail_over`. A mirror outcome never alters
/// the overload signal: only the primary gates the snapshot tier.
pub open spec fn spec_step_fetch(r: Resolver, outcome: FetchOutcome) -> (Resolver, Action) {
    match outcome {
        FetchOutcome::Success(v) => (
            Resolver { phase: Phase::Finished, ..r },
            Action::Done(Ok(v)),
        ),
        _ => {
            let overload = if r.phase is Primary {
                outcome == (FetchOutcome::Unavailable { retryable: true })
            } else {
                r.overload_seen
            };
            if r.phase is Primary && r.plan.mirror_url is Some {
                match r.plan.mirror_url {
                    Some(u) => (
                        Resolver { overload_seen: overload, phase: Phase::Mirror, ..r },
                        Action::Fetch(u),
                    ),
                    None => spec_fail_over(r, overload),
                }
            } else {
                spec_fail_over(r, overload)
            }
        },
    }
}

/// The transition taken on the result of the snapshot lookup: a found
/// snapshot is returned as the payload, an absent one ends in exhaustion.
pub open spec fn spec_step_snapshot(r: Resolver, found: Option<serde_json::Value>) -> (Resolver, Action) {
    match found {
        Some(v) => (Resolver { phase: Phase::Finished, ..r }, Action::Done(Ok(v))),
        None => (
            Resolver { phase: Phase::Finished, ..r },
            Action::Done(Err(ProxyError::Exhausted)),
        ),
    }
}

impl Resolver {
    /// Begin a resolution; the first action is always to fetch the primary.
    pub fn start(plan: FallbackPlan) -> (r: (Resolver, Action))
        ensures
            r == spec_start(plan),
    {
        let url = plan.primary_url.clone();
        (
            Resolver { plan, overload_seen: false, phase: Phase::Primary },
            Action::Fetch(url),
        )
    }

    /// Advance the chain on the outcome of the fetch the last action asked
    /// for.
    pub fn step_fetch(&mut self, outcome: FetchOutcome) -> (r: Action)
        requires
            old(self).phase is Primary || old(self).phase is Mirror,
        ensures
            (*final(self), r) == spec_step_fetch(*old(self), outcome),
    {
        match outcome {
            FetchOutcome::Success(v) => {
                self.phase = Phase::Finished;
                Action::Done(Ok(v))
            },
            _ => {
                let on_primary = matches!(self.phase, Phase::Primary);
                let overload = if on_primary {
                    matches!(outcome, FetchOutcome::Unavailable { retryable: true })
                } else {
                    self.overload_seen
                };
                self.overload_seen = overload;
                let mirror_next: Option<String> = if on_primary {
                    match &self.plan.mirror_url {
                        Some(u) => Some(u.clone()),
                        None => None,
                    }
                } else {
                    None
                };
                match mirror_next {
                    Some(u) => {
                        self.phase = Phase::Mirror;
                        Action::Fetch(u)
                    },
                    None => {
                        if overload {
                            let snap: Option<SnapshotKey> = match &self.plan.snapshot_key {
                                Some(k) => Some(*k),
                                None => None,
                            };
                            match snap {
                                Some(k) => {
                                    self.phase = Phase::Snapshot;
                                    Action::Lookup(k)
                                },
                                None => {
                                    self.phase = Phase::Finished;
                                    Action::Done(Err(ProxyError::Exhausted))
                                },
                            }
                        } else {
                            self.phase = Phase::Finished;
                            Action::Done(Err(ProxyError::Exhausted))
                        }
                    },
                }
            },
        }
    }

    /// Advance the chain on the result of the snapshot lookup the last
    /// action asked for.
    pub fn step_snapshot(&mut self, found: Option<serde_json::Value>) -> (r: Action)
        requires
            old(self).phase is Snapshot,
        ensures
            (*final(self), r) == spec_step_snapshot(*old(self), found),
    {
        self.phase = Phase::Finished;
        match found {
            Some(v) => Action::Done(Ok(v)),
            None => Action::Done(Err(ProxyError::Exhausted)),
        }
    }
}

/// A primary success short-circuits the chain: the payload comes back at
/// once and neither the mirror nor the snapshot store is ever consulted.
pub proof fn lemma_primary_success(plan: FallbackPlan, p: serde_json::Value)
    ensures
        ({
            let (r0, a0) = spec_start(plan);
            let (r1, a1) = spec_step_fetch(r0, FetchOutcome::Success(p));
            &&& a0 == Action::Fetch(plan.primary_url)
            &&& a1 == Action::Done(Ok(p))
            &&& r1.phase is Finished
        }),
{
}

/// Fallback order: with a mirror configured, any primary failure is followed
/// by a fetch of the mirror, and a mirror success ends the chain with the
/// mirror's payload; no step of the chain consults the snapshot store.
pub proof fn lemma_fallback_order(
    plan: FallbackPlan,
    primary_failure: FetchOutcome,
    p: serde_json::Value,
)
    requires
        plan.mirror_url is Some,
        !(primary_failure is Success),
    ensures
        ({
            let (r0, a0) = spec_start(plan);
            let (r1, a1) = spec_step_fetch(r0, primary_failure);
            let (r2, a2) = spec_step_fetch(r1, FetchOutcome::Success(p));
            &&& a0 == Action::Fetch(plan.primary_url)
            &&& (plan.mirror_url matches Some(m) && a1 == Action::Fetch(m))
            &&& a2 == Action::Done(Ok(p))
            &&& !(a0 is Lookup) && !(a1 is Lookup) && !(a2 is Lookup)
            &&& r2.phase is Finished
        }),
{
}

/// Snapshot gating: with no mirror and a snapshot key configured, a primary
/// failure carrying the overload signal leads to the snapshot lookup, and a
/// found snapshot is returned as the payload; the same failure without the
/// overload signal ends the chain in exhaustion without consulting the
/// snapshot store.
pub proof fn lemma_snapshot_gating(plan: FallbackPlan, v: serde_json::Value)
    requires
        plan.mirror_url is None,
        plan.snapshot_key is Some,
    ensures
        ({
            let (r0, a0) = spec_start(plan);
            let (r1, a1) = spec_step_fetch(r0, FetchOutcome::Unavailable { retryable: true });
            let (r2, a2) = spec_step_snapshot(r1, Some(v));
            &&& (plan.snapshot_key matches Some(k) && a1 == Action::Lookup(k))
            &&& a2 == Action::Done(Ok(v))
        }),
        ({
            let (r0, a0) = spec_start(plan);
            let (r1, a1) = spec_step_fetch(r0, FetchOutcome::Unavailable { retryable: false });
            &&& a1 == Action::Done(Err(ProxyError::Exhausted))
            &&& !(a1 is Lookup)
        }),
{
}

/// Exhaustion: with no mirror and no snapshot key configured, any primary
/// failure ends the chain at once with the terminal error and no payload.
pub proof fn lemma_exhaustion(plan: FallbackPlan, primary_failure: FetchOutcome)
    requires
        plan.mirror_url is None,
        plan.snapshot_key is None,
        !(primary_failure is Success),
    ensures
        ({
            let (r0, a0) = spec_start(plan);
            let (r1, a1) = spec_step_fetch(r0, primary_failure);
            &&& a1 == Action::Done(Err(ProxyError::Exhausted))
            &&& r1.phase is Finished
        }),
{
}

} // verus!
