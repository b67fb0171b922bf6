//! Cumulative check statistics of one server.

use crate::clock::Timestamp;
use vstd::prelude::*;

verus! {

/// The mathematical content of a server's statistics.
pub struct StatsView {
    pub total: nat,
    pub failed: nat,
    pub last_failure: Option<Timestamp>,
}

/// Statistics of a server that has never been checked.
pub open spec fn zero_stats() -> StatsView {
    StatsView { total: 0, failed: 0, last_failure: None }
}

/// The statistics after one more completed check, which succeeded (`ok`) or
/// failed at time `now`.
pub open spec fn record_outcome(s: StatsView, ok: bool, now: Timestamp) -> StatsView {
    StatsView {
        total: s.total + 1,
        failed: if ok { s.failed } else { s.failed + 1 },
        last_failure: if ok { s.last_failure } else { Some(now) },
    }
}

/// The consistency that every reachable statistics value has.
pub open spec fn consistent(s: StatsView) -> bool {
    s.failed <= s.total
}

/// How available a server has been: nothing is known before the first check,
/// afterwards it is the share `successes / total`.
#[derive(Clone, Copy, Debug, PartialEq, Eq)]
pub enum Availability {
    NoData,
    Ratio { successes: u32, total: u32 },
}

/// The availability that statistics `s` stand for.
pub open spec fn availability_of(s: StatsView) -> Availability {
    if s.total == 0 {
        Availability::NoData
    } else {
        Availability::Ratio { successes: (s.total - s.failed) as u32, total: s.total as u32 }
    }
}

/// Check counters and the time of the last failure; never more failures than
/// checks.
#[derive(Clone, Copy, Debug)]
pub struct ServerStats {
    total_checks: u32,
    failed_checks: u32,
    last_failure: Option<Timestamp>,
}

impl View for ServerStats {
    type V = StatsView;

    closed spec fn view(&self) -> StatsView {
        StatsView {
            total: self.total_checks as nat,
            failed: self.failed_checks as nat,
            last_failure: self.last_failure,
        }
    }
}

impl ServerStats {
    #[verifier::type_invariant]
    spec fn counted(self) -> bool {
        self.failed_checks <= self.total_checks
    }

    /// Statistics with no check recorded.
    pub fn new() -> (s: ServerStats)
        ensures
            s@ == zero_stats(),
    {
        ServerStats { total_checks: 0, failed_checks: 0, last_failure: None }
    }

    /// Whether one more check can be counted.
    pub fn has_room(&self) -> (r: bool)
        ensures
            r == (self@.total < u32::MAX),
    {
        self.total_checks < u32::MAX
    }

    /// Counts one completed check; a failed one is counted as a failure too
    /// and stamps the last-failure time.
    pub fn record(&mut self, ok: bool, now: Timestamp)
        requires
            old(self)@.total < u32::MAX,
        ensures
            final(self)@ == record_outcome(old(self)@, ok, now),
            consistent(old(self)@),
            consistent(final(self)@),
    {
        proof {
            use_type_invariant(&*self);
        }
        self.total_checks = self.total_checks + 1;
        if !ok {
            self.failed_checks = self.failed_checks + 1;
            self.last_failure = Some(now);
        }
    }

    /// How many checks were completed.
    pub fn total_checks(&self) -> (n: u32)
        ensures
            n == self@.total,
    {
        self.total_checks
    }

    /// How many of the checks failed.
    pub fn failed_checks(&self) -> (n: u32)
        ensures
            n == self@.failed,
    {
        self.failed_checks
    }

    /// When the last failed check was counted, if any has failed.
    pub fn last_failure(&self) -> (t: Option<Timestamp>)
        ensures
            t == self@.last_failure,
    {
        self.last_failure
    }

    /// The availability so far: `NoData` exactly when nothing was checked.
    pub fn availability(&self) -> (a: Availability)
        ensures
            a == availability_of(self@),
            consistent(self@),
    {
        proof {
            use_type_invariant(self);
        }
        if self.total_checks == 0 {
            Availability::NoData
        } else {
            Availability::Ratio {
                successes: self.total_checks - self.failed_checks,
                total: self.total_checks,
            }
        }
    }
}

/// The statistics after a run of checks, each given by its outcome and its
/// time, counted one after the other.
pub open spec fn stats_after(s: StatsView, outcomes: Seq<(bool, Timestamp)>) -> StatsView
    decreases outcomes.len(),
{
    if outcomes.len() == 0 {
        s
    } else {
        let last = outcomes.last();
        record_outcome(stats_after(s, outcomes.drop_last()), last.0, last.1)
    }
}

/// One more check keeps the statistics consistent, adds one to the number of
/// checks and lowers neither counter.
pub proof fn lemma_record_step(s: StatsView, ok: bool, now: Timestamp)
    requires
        consistent(s),
    ensures
        consistent(record_outcome(s, ok, now)),
        record_outcome(s, ok, now).total == s.total + 1,
        record_outcome(s, ok, now).failed >= s.failed,
        record_outcome(s, ok, now).failed <= s.failed + 1,
{
}

/// Whatever the outcomes of a run of checks are, the statistics stay
/// consistent (never more failures than checks), every check is counted, and
/// neither counter is lower after the whole run than after its first `k`
/// checks.
pub proof fn lemma_counters_never_decrease(s: StatsView, outcomes: Seq<(bool, Timestamp)>, k: int)
    requires
        consistent(s),
        0 <= k <= outcomes.len(),
    ensures
        consistent(stats_after(s, outcomes)),
        stats_after(s, outcomes).total == s.total + outcomes.len(),
        stats_after(s, outcomes.take(k)).total <= stats_after(s, outcomes).total,
        stats_after(s, outcomes.take(k)).failed <= stats_after(s, outcomes).failed,
    decreases outcomes.len(),
{
    if outcomes.len() == 0 {
        assert(outcomes.take(k) =~= outcomes);
    } else if k == outcomes.len() {
        assert(outcomes.take(k) =~= outcomes);
        lemma_counters_never_decrease(s, outcomes.drop_last(), k - 1);
    } else {
        assert(outcomes.drop_last().take(k) =~= outcomes.take(k));
        lemma_counters_never_decrease(s, outcomes.drop_last(), k);
    }
}

} // verus!
