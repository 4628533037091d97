//! Decisions of the connection manager for one node: when a cached
//! connection may be handed out, and what an acquisition cycle does after
//! each establishment attempt. The caller holds the cache behind a
//! reader/writer lock and performs the connects and the sleeps.

use vstd::prelude::*;
use crate::reconnection::{
    fresh_schedule, lemma_bounded_schedule, next_delay_spec, nth_schedule, ReconnectionPolicy,
    ReconnectionSchedule,
};

verus! {

/// What the manager sees of a cached connection: its identity and whether
/// its transport has reported itself broken.
#[derive(Debug, PartialEq, Eq, Structural, Clone, Copy)]
pub struct ConnectionState {
    pub id: u64,
    pub broken: bool,
}

/// The outcome of one attempt to open a transport and run the handshake.
#[derive(Debug)]
pub enum Attempt<E> {
    Connected(u64),
    Failed(E),
}

/// What an acquisition cycle does next.
#[derive(Debug)]
pub enum Step<E> {
    /// Put the new connection in the cache and hand it out.
    Install(u64),
    /// Wait this many milliseconds, then try again.
    Retry(u64),
    /// Stop and surface this error.
    GiveUp(E),
}

/// The connection that the cache can hand out: one that is there and not broken.
pub open spec fn usable(slot: Option<ConnectionState>) -> Option<u64> {
    match slot {
        Some(c) => if c.broken {
            None
        } else {
            Some(c.id)
        },
        None => None,
    }
}

/// The connection to hand out from the cache, if any. Checked on the shared
/// path and again once exclusive access is held.
pub fn usable_connection(slot: &Option<ConnectionState>) -> (r: Option<u64>)
    ensures
        r == usable(*slot),
{
    match slot {
        Some(c) => if c.broken {
            None
        } else {
            Some(c.id)
        },
        None => None,
    }
}

/// The step after an attempt, and the schedule after it.
pub open spec fn step_spec<E>(s: ReconnectionSchedule, outcome: Attempt<E>) -> (Step<E>, ReconnectionSchedule) {
    match outcome {
        Attempt::Connected(id) => (Step::Install(id), s),
        Attempt::Failed(e) => match next_delay_spec(s).0 {
            Some(d) => (Step::Retry(d), next_delay_spec(s).1),
            None => (Step::GiveUp(e), s),
        },
    }
}

/// One acquisition cycle's establishment loop, with its own schedule.
#[derive(Debug)]
pub struct Establishment {
    pub schedule: ReconnectionSchedule,
}

impl Establishment {
    /// Starts a cycle with a fresh schedule of `policy`.
    pub fn new(policy: &ReconnectionPolicy) -> (r: Establishment)
        ensures
            r.schedule == fresh_schedule(*policy),
    {
        Establishment { schedule: policy.new_node_schedule() }
    }

    /// Decides what follows an attempt: a success is installed; a failure
    /// is retried after the schedule's next delay, or surfaced once the
    /// schedule has none left.
    pub fn after_attempt<E>(&mut self, outcome: Attempt<E>) -> (r: Step<E>)
        ensures
            (r, final(self).schedule) == step_spec(old(self).schedule, outcome),
    {
        match outcome {
            Attempt::Connected(id) => Step::Install(id),
            Attempt::Failed(e) => match self.schedule.next_delay() {
                Some(d) => Step::Retry(d),
                None => Step::GiveUp(e),
            },
        }
    }
}

/// A model of the callers that the manager's exclusive section serves: `n`
/// callers served one after another under exclusive access, starting
/// from `slot`, where an establishment yields the connection `fresh`: the
/// cache afterwards, how many establishments ran, and the connection each
/// caller got.
pub open spec fn serve(slot: Option<ConnectionState>, n: nat, fresh: u64) -> (
    Option<ConnectionState>,
    nat,
    Seq<u64>,
)
    decreases n,
{
    if n == 0 {
        (slot, 0, Seq::empty())
    } else {
        let (s, e, h) = serve(slot, (n - 1) as nat, fresh);
        match usable(s) {
            Some(id) => (s, e, h.push(id)),
            None => (Some(ConnectionState { id: fresh, broken: false }), e + 1, h.push(fresh)),
        }
    }
}

/// In the model `serve` of callers taken one at a time under exclusive
/// access: against an empty cache, any number of callers cause exactly one
/// establishment, and all of them get the connection it made. The lock that
/// serialises real callers is the caller's, outside this library.
pub proof fn lemma_single_establishment(n: nat, fresh: u64)
    requires
        n >= 1,
    ensures
        serve(None, n, fresh).1 == 1,
        serve(None, n, fresh).2.len() == n,
        forall|i: int| 0 <= i < n ==> #[trigger] serve(None, n, fresh).2[i] == fresh,
        serve(None, n, fresh).0 == Some(ConnectionState { id: fresh, broken: false }),
    decreases n,
{
    if n > 1 {
        lemma_single_establishment((n - 1) as nat, fresh);
    }
    let prev = serve(None, (n - 1) as nat, fresh);
    assert forall|i: int| 0 <= i < n implies #[trigger] serve(None, n, fresh).2[i] == fresh by {
        if i < n - 1 {
            assert(serve(None, n, fresh).2[i] == prev.2[i]);
        }
    }
}

/// A cached connection that reports itself broken is never handed out by
/// `usable_connection`; in the model `serve`, the next acquisition
/// establishes a new one.
pub proof fn lemma_broken_not_reused(c: ConnectionState, fresh: u64)
    requires
        c.broken,
    ensures
        usable(Some(c)) is None,
        serve(Some(c), 1, fresh).1 == 1,
        serve(Some(c), 1, fresh).2 == seq![fresh],
{
    reveal_with_fuel(serve, 2);
    assert(serve(Some(c), 1, fresh).2 =~= seq![fresh]);
}

/// With a policy that allows `m` retries and an attempt that fails every
/// time, the first `m` failures are retried and the next one gives up with
/// that attempt's own error; nothing is retried after it.
pub proof fn lemma_failures_exhaust<E>(p: ReconnectionPolicy, m: u64, k: nat, e: E)
    requires
        p.max_attempts == Some(m),
        k <= m,
    ensures
        k < m ==> step_spec(nth_schedule(fresh_schedule(p), k), Attempt::Failed(e)).0 is Retry,
        k == m ==> step_spec(nth_schedule(fresh_schedule(p), k), Attempt::Failed(e)).0 == Step::<E>::GiveUp(e),
        k == m ==> step_spec(nth_schedule(fresh_schedule(p), k), Attempt::Failed(e)).1 == nth_schedule(fresh_schedule(p), k),
{
    lemma_bounded_schedule(p, m, k);
}

/// A model of one acquisition cycle in which every attempt fails, with the
/// errors `errs` in order, each outcome handed to `after_attempt` as the
/// caller's loop does: the delays slept, the error surfaced (none if the
/// errors ran out first), and how many attempts were made. Each failed
/// attempt asks the schedule for one delay.
pub open spec fn failing_cycle<E>(s: ReconnectionSchedule, errs: Seq<E>) -> (Seq<u64>, Option<E>, nat)
    decreases errs.len(),
{
    if errs.len() == 0 {
        (Seq::empty(), None, 0)
    } else {
        let (step, next) = step_spec(s, Attempt::Failed(errs[0]));
        match step {
            Step::Retry(d) => {
                let (ds, r, n) = failing_cycle(next, errs.drop_first());
                (seq![d] + ds, r, n + 1)
            },
            Step::GiveUp(e) => (Seq::empty(), Some(e), 1),
            Step::Install(_) => (Seq::empty(), None, 1),
        }
    }
}

/// Asking a schedule for one delay and then `i` more is asking it for `i + 1`.
pub proof fn lemma_nth_schedule_shift(s: ReconnectionSchedule, i: nat)
    ensures
        nth_schedule(next_delay_spec(s).1, i) == nth_schedule(s, i + 1),
    decreases i,
{
    if i > 0 {
        lemma_nth_schedule_shift(s, (i - 1) as nat);
    } else {
        assert(nth_schedule(s, 0) == s);
        assert(nth_schedule(s, 1) == next_delay_spec(nth_schedule(s, 0)).1);
    }
}

/// A schedule that yields `k` delays and then none, with every attempt
/// failing: exactly `k + 1` attempts are made, the `k` delays are slept in
/// the order the schedule gives them, and the error of the last attempt is
/// surfaced; nothing follows it.
pub proof fn lemma_failing_cycle<E>(s: ReconnectionSchedule, k: nat, errs: Seq<E>)
    requires
        forall|i: nat| i < k ==> (#[trigger] next_delay_spec(nth_schedule(s, i))).0 is Some,
        next_delay_spec(nth_schedule(s, k)).0 is None,
        errs.len() > k,
    ensures
        failing_cycle(s, errs).2 == k + 1,
        failing_cycle(s, errs).1 == Some(errs[k as int]),
        failing_cycle(s, errs).0.len() == k,
        forall|i: nat| i < k ==> Some(#[trigger] failing_cycle(s, errs).0[i as int]) == next_delay_spec(
            nth_schedule(s, i),
        ).0,
    decreases k,
{
    if k > 0 {
        let s2 = next_delay_spec(s).1;
        assert(next_delay_spec(nth_schedule(s, 0)).0 is Some);
        assert forall|i: nat| i < (k - 1) as nat implies (#[trigger] next_delay_spec(
            nth_schedule(s2, i),
        )).0 is Some by {
            lemma_nth_schedule_shift(s, i);
            assert(next_delay_spec(nth_schedule(s, i + 1)).0 is Some);
        }
        lemma_nth_schedule_shift(s, (k - 1) as nat);
        lemma_failing_cycle(s2, (k - 1) as nat, errs.drop_first());
        let rest = failing_cycle(s2, errs.drop_first());
        assert(failing_cycle(s, errs) == (seq![next_delay_spec(s).0->0] + rest.0, rest.1, rest.2 + 1));
        assert forall|i: nat| i < k implies Some(#[trigger] failing_cycle(s, errs).0[i as int])
            == next_delay_spec(nth_schedule(s, i)).0 by {
            if i > 0 {
                lemma_nth_schedule_shift(s, (i - 1) as nat);
                assert(failing_cycle(s, errs).0[i as int] == rest.0[(i - 1) as int]);
            }
        }
    }
}

/// With a policy that allows `m` retries and every attempt failing, a cycle
/// makes `m + 1` attempts, sleeps `m` times, and surfaces the error of the
/// last attempt.
pub proof fn lemma_bounded_failing_cycle<E>(p: ReconnectionPolicy, m: u64, errs: Seq<E>)
    requires
        p.max_attempts == Some(m),
        errs.len() > m,
    ensures
        failing_cycle(fresh_schedule(p), errs).2 == m + 1,
        failing_cycle(fresh_schedule(p), errs).1 == Some(errs[m as int]),
        failing_cycle(fresh_schedule(p), errs).0.len() == m,
{
    assert forall|i: nat| i < m implies (#[trigger] next_delay_spec(
        nth_schedule(fresh_schedule(p), i),
    )).0 is Some by {
        lemma_bounded_schedule(p, m, i);
    }
    lemma_bounded_schedule(p, m, m as nat);
    lemma_failing_cycle(fresh_schedule(p), m as nat, errs);
}

} // verus!
