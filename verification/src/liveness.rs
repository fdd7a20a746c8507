//! The TTL-bounded cache of the backend-reachability probe.
//!
//! The first-ever query performs a real probe synchronously and blocks
//! its caller; afterwards a query always answers from the cache at
//! once, and a stale cache additionally triggers exactly one detached
//! background refresh.  Time is counted in whole units handed in by the
//! host; the probe itself is a network round trip performed outside the
//! library, whose boolean result is recorded here.

use vstd::prelude::*;

verus! {

/// Staleness window: a cached probe older than this many time units
/// still answers, but triggers a refresh.
pub const LIVENESS_TTL: u64 = 2;

/// The cached probe state.
#[derive(Clone, Copy, PartialEq, Eq, Structural, Debug)]
pub struct LivenessCache {
    pub is_running: bool,
    pub last_check: u64,
    pub first_check_done: bool,
}

/// What one liveness query must do: probe synchronously (first query of
/// the process only), or answer `value` at once, triggering a detached
/// refresh when `refresh` holds.
#[derive(Clone, Copy, PartialEq, Eq, Structural, Debug)]
pub enum LivenessDecision {
    SyncProbe,
    Cached { value: bool, refresh: bool },
}

impl LivenessCache {
    /// A cached probe at least TTL units old is stale.
    pub open spec fn is_stale(self, now: u64) -> bool {
        now >= self.last_check + LIVENESS_TTL
    }

    /// The decision a query issued at `now` must take.
    pub open spec fn decision(self, now: u64) -> LivenessDecision {
        if !self.first_check_done {
            LivenessDecision::SyncProbe
        } else {
            LivenessDecision::Cached { value: self.is_running, refresh: self.is_stale(now) }
        }
    }

    /// The cache as it stands after a probe that returned `reachable`
    /// completes at `now`.
    pub open spec fn recorded(self, reachable: bool, now: u64) -> LivenessCache {
        LivenessCache { is_running: reachable, last_check: now, first_check_done: true }
    }

    /// A fresh process has never completed a probe.
    pub fn new() -> (r: Self)
        ensures
            r == (LivenessCache { is_running: false, last_check: 0, first_check_done: false }),
    {
        LivenessCache { is_running: false, last_check: 0, first_check_done: false }
    }

    /// Decides what a query issued at `now` does; reads only the cache
    /// and performs no I/O itself.
    pub fn query(&self, now: u64) -> (d: LivenessDecision)
        ensures
            d == self.decision(now),
    {
        if !self.first_check_done {
            LivenessDecision::SyncProbe
        } else {
            let refresh = now >= self.last_check && now - self.last_check >= LIVENESS_TTL;
            LivenessDecision::Cached { value: self.is_running, refresh }
        }
    }

    /// Records a completed probe; a failed probe is recorded as "not
    /// reachable", never surfaced as an error to the query's caller.
    pub fn record_probe(&mut self, reachable: bool, now: u64)
        ensures
            *final(self) == old(self).recorded(reachable, now),
    {
        self.is_running = reachable;
        self.last_check = now;
        self.first_check_done = true;
    }
}

/// The liveness protocol over a process lifetime: the very first query
/// performs a real synchronous probe; once that probe's result is
/// recorded at `t`, a query within the TTL window answers the recorded
/// value with no refresh, and a query at or past the TTL still answers
/// the recorded value at once but triggers exactly one refresh.
pub proof fn lemma_liveness_protocol(
    c0: LivenessCache,
    reachable: bool,
    t: u64,
    t_fresh: u64,
    t_stale: u64,
)
    requires
        !c0.first_check_done,
        t <= t_fresh,
        t_fresh < t + LIVENESS_TTL,
        t_stale >= t + LIVENESS_TTL,
    ensures
        c0.decision(t) is SyncProbe,
        c0.recorded(reachable, t).decision(t_fresh) == (LivenessDecision::Cached {
            value: reachable,
            refresh: false,
        }),
        c0.recorded(reachable, t).decision(t_stale) == (LivenessDecision::Cached {
            value: reachable,
            refresh: true,
        }),
{
}

/// Recording a refresh result keeps later in-window queries cache-only:
/// after any completed probe, a second query inside the TTL window
/// returns the same cached value and triggers no further probe.
pub proof fn lemma_back_to_back_queries_identical(c: LivenessCache, now1: u64, now2: u64)
    requires
        c.first_check_done,
        !c.is_stale(now1),
        !c.is_stale(now2),
    ensures
        c.decision(now1) == c.decision(now2),
        c.decision(now1) == (LivenessDecision::Cached { value: c.is_running, refresh: false }),
{
}

} // verus!
