//! Backoff policies and the per-cycle schedules they produce.

use vstd::prelude::*;

verus! {

/// A backoff policy: the first delay, a cap that delays never pass, and an
/// optional bound on how many retries one acquisition cycle may make. Each
/// retry doubles the delay until the cap.
#[derive(Debug, PartialEq, Eq, Structural, Clone, Copy)]
pub struct ReconnectionPolicy {
    pub base_delay_ms: u64,
    pub max_delay_ms: u64,
    pub max_attempts: Option<u64>,
}

/// The state of one acquisition cycle's backoff: how many delays it has
/// handed out and the one it hands out next.
#[derive(Debug, PartialEq, Eq, Structural, Clone, Copy)]
pub struct ReconnectionSchedule {
    pub policy: ReconnectionPolicy,
    pub attempts: u64,
    pub next_ms: u64,
}

pub open spec fn min_u64(a: u64, b: u64) -> u64 {
    if a <= b {
        a
    } else {
        b
    }
}

/// Whether the schedule has handed out every delay that its policy allows.
pub open spec fn exhausted(s: ReconnectionSchedule) -> bool {
    s.policy.max_attempts matches Some(m) && s.attempts >= m
}

/// The delay that follows `d`: doubled, but not past the cap.
pub open spec fn doubled_capped(d: u64, cap: u64) -> u64 {
    if d as int * 2 >= cap as int {
        cap
    } else {
        (d * 2) as u64
    }
}

/// What one request for a delay returns, and the schedule after it.
pub open spec fn next_delay_spec(s: ReconnectionSchedule) -> (Option<u64>, ReconnectionSchedule) {
    if exhausted(s) {
        (None, s)
    } else {
        (
            Some(s.next_ms),
            ReconnectionSchedule {
                policy: s.policy,
                attempts: if s.attempts == u64::MAX {
                    s.attempts
                } else {
                    (s.attempts + 1) as u64
                },
                next_ms: doubled_capped(s.next_ms, s.policy.max_delay_ms),
            },
        )
    }
}

/// A fresh schedule of `p`.
pub open spec fn fresh_schedule(p: ReconnectionPolicy) -> ReconnectionSchedule {
    ReconnectionSchedule { policy: p, attempts: 0, next_ms: min_u64(p.base_delay_ms, p.max_delay_ms) }
}

impl ReconnectionPolicy {
    /// A fresh schedule for one acquisition cycle; no state is shared
    /// between schedules.
    pub fn new_node_schedule(&self) -> (r: ReconnectionSchedule)
        ensures
            r == fresh_schedule(*self),
    {
        let first = if self.base_delay_ms <= self.max_delay_ms {
            self.base_delay_ms
        } else {
            self.max_delay_ms
        };
        ReconnectionSchedule { policy: *self, attempts: 0, next_ms: first }
    }
}

impl ReconnectionSchedule {
    /// The delay to wait before the next retry, or none: give up.
    pub fn next_delay(&mut self) -> (r: Option<u64>)
        ensures
            (r, *final(self)) == next_delay_spec(*old(self)),
    {
        if let Some(m) = self.policy.max_attempts {
            if self.attempts >= m {
                return None;
            }
        }
        let d = self.next_ms;
        if self.attempts < u64::MAX {
            self.attempts = self.attempts + 1;
        }
        self.next_ms = if d >= self.policy.max_delay_ms / 2 + self.policy.max_delay_ms % 2 {
            self.policy.max_delay_ms
        } else {
            d * 2
        };
        Some(d)
    }
}

/// A schedule whose policy allows `m` retries hands out exactly `m` delays,
/// then gives up and keeps giving up.
pub proof fn lemma_bounded_schedule(p: ReconnectionPolicy, m: u64, k: nat)
    requires
        p.max_attempts == Some(m),
    ensures
        k < m ==> next_delay_spec(nth_schedule(fresh_schedule(p), k)).0 is Some,
        k >= m ==> next_delay_spec(nth_schedule(fresh_schedule(p), k)).0 is None,
        nth_schedule(fresh_schedule(p), k).attempts == if k <= m { k } else { m as nat },
        nth_schedule(fresh_schedule(p), k).policy == p,
    decreases k,
{
    if k > 0 {
        lemma_bounded_schedule(p, m, (k - 1) as nat);
    }
    let s = nth_schedule(fresh_schedule(p), k);
    assert(exhausted(s) <==> k >= m);
}

/// The schedule after `k` requests for a delay.
pub open spec fn nth_schedule(s: ReconnectionSchedule, k: nat) -> ReconnectionSchedule
    decreases k,
{
    if k == 0 {
        s
    } else {
        next_delay_spec(nth_schedule(s, (k - 1) as nat)).1
    }
}

} // verus!
