//! The edge-triggered alert rule of one server.

use crate::clock::Timestamp;
use vstd::prelude::*;

verus! {

/// What a check makes the monitor announce.
#[derive(Clone, Copy, Debug, PartialEq, Eq, Structural)]
pub enum Notice {
    /// Nothing is announced.
    Silent,
    /// The run of failures has just reached the threshold.
    Down,
    /// The first success after the threshold had been reached.
    Recovered,
}

/// A server counts as alerting once its run of failures has reached the
/// threshold.
pub open spec fn alerting(failures: nat, threshold: nat) -> bool {
    failures >= threshold
}

/// The run of failures after one more check.
pub open spec fn next_failures(failures: nat, ok: bool) -> nat {
    if ok { 0 } else { failures + 1 }
}

/// What one more check announces, given the run of failures before it. A
/// success announces a recovery if the run had reached the threshold. A
/// failure announces the outage if it makes the run exactly as long as the
/// threshold. With a threshold of 0 no failure does, as the run is then 1 at
/// least, and every success announces a recovery.
pub open spec fn notice_for(failures: nat, ok: bool, threshold: nat) -> Notice {
    if ok {
        if failures >= threshold { Notice::Recovered } else { Notice::Silent }
    } else {
        if failures + 1 == threshold { Notice::Down } else { Notice::Silent }
    }
}

/// The mathematical content of a server's alert state.
pub struct StatusView {
    pub failures: nat,
    pub last_notification: Option<Timestamp>,
}

/// The alert state of a server that has never been checked.
pub open spec fn zero_status() -> StatusView {
    StatusView { failures: 0, last_notification: None }
}

/// The alert state after one more check.
pub open spec fn observe_outcome(s: StatusView, ok: bool) -> StatusView {
    StatusView { failures: next_failures(s.failures, ok), last_notification: s.last_notification }
}

/// The alert state of one server: the length of the unbroken run of failures
/// and the time of the last outage alert.
#[derive(Clone, Copy, Debug)]
pub struct ServerStatus {
    pub consecutive_failures: u32,
    pub last_notification: Option<Timestamp>,
}

impl View for ServerStatus {
    type V = StatusView;

    open spec fn view(&self) -> StatusView {
        StatusView {
            failures: self.consecutive_failures as nat,
            last_notification: self.last_notification,
        }
    }
}

impl ServerStatus {
    /// The state of a server that has never been checked.
    pub fn new() -> (s: ServerStatus)
        ensures
            s@ == zero_status(),
    {
        ServerStatus { consecutive_failures: 0, last_notification: None }
    }

    /// Whether one more failure can be counted.
    pub fn has_room(&self) -> (r: bool)
        ensures
            r == (self@.failures < u32::MAX),
    {
        self.consecutive_failures < u32::MAX
    }

    /// Applies the threshold rule to one check. A success ends the run of
    /// failures and announces a recovery if the run had reached the
    /// threshold; a failure lengthens the run and announces the outage on the
    /// check that makes the run exactly as long as the threshold.
    pub fn observe(&mut self, ok: bool, threshold: u32) -> (notice: Notice)
        requires
            ok || old(self)@.failures < u32::MAX,
        ensures
            final(self)@ == observe_outcome(old(self)@, ok),
            notice == notice_for(old(self)@.failures, ok, threshold as nat),
    {
        if ok {
            let was_failing = self.consecutive_failures >= threshold;
            self.consecutive_failures = 0;
            if was_failing { Notice::Recovered } else { Notice::Silent }
        } else {
            self.consecutive_failures = self.consecutive_failures + 1;
            if self.consecutive_failures == threshold { Notice::Down } else { Notice::Silent }
        }
    }
}

/// The run of failures after a sequence of checks, `true` standing for a
/// success.
pub open spec fn failures_after(failures: nat, outcomes: Seq<bool>) -> nat
    decreases outcomes.len(),
{
    if outcomes.len() == 0 {
        failures
    } else {
        next_failures(failures_after(failures, outcomes.drop_last()), outcomes.last())
    }
}

/// How many of the checks of a sequence announce `which`.
pub open spec fn notices_of(failures: nat, outcomes: Seq<bool>, threshold: nat, which: Notice) -> nat
    decreases outcomes.len(),
{
    if outcomes.len() == 0 {
        0
    } else {
        let before = failures_after(failures, outcomes.drop_last());
        let here: nat = if notice_for(before, outcomes.last(), threshold) == which {
            1
        } else {
            0
        };
        notices_of(failures, outcomes.drop_last(), threshold, which) + here
    }
}

/// 1 for a server that is alerting, 0 for one that is not.
pub open spec fn alerting_bit(failures: nat, threshold: nat) -> nat {
    if alerting(failures, threshold) {
        1
    } else {
        0
    }
}

/// With a threshold of at least one, a check is announced exactly when it
/// moves the server between normal and alerting: the outage when it starts
/// alerting, the recovery when it stops, and nothing while it stays as it is.
pub proof fn lemma_notice_is_transition(failures: nat, ok: bool, threshold: nat)
    requires
        threshold >= 1,
    ensures
        notice_for(failures, ok, threshold) == Notice::Down <==> !alerting(failures, threshold)
            && alerting(next_failures(failures, ok), threshold),
        notice_for(failures, ok, threshold) == Notice::Recovered <==> alerting(
            failures,
            threshold,
        ) && !alerting(next_failures(failures, ok), threshold),
        notice_for(failures, ok, threshold) == Notice::Silent <==> alerting(failures, threshold)
            == alerting(next_failures(failures, ok), threshold),
{
}

/// A success always ends the run of failures, and a failure lengthens it by
/// one.
pub proof fn lemma_success_resets(failures: nat)
    ensures
        next_failures(failures, true) == 0,
        next_failures(failures, false) == failures + 1,
{
}

/// With a threshold of at least one, over any sequence of checks outages
/// and recoveries are announced in turn: the outages announced exceed the
/// recoveries announced by one if the server ends alerting and began normal,
/// fall short by one if it began alerting and ends normal, and equal them
/// otherwise. So no outage is announced twice, and each is followed by one
/// recovery at most.
pub proof fn lemma_notices_alternate(failures: nat, outcomes: Seq<bool>, threshold: nat)
    requires
        threshold >= 1,
    ensures
        notices_of(failures, outcomes, threshold, Notice::Down) + alerting_bit(
            failures,
            threshold,
        ) == notices_of(failures, outcomes, threshold, Notice::Recovered) + alerting_bit(
            failures_after(failures, outcomes),
            threshold,
        ),
    decreases outcomes.len(),
{
    if outcomes.len() > 0 {
        lemma_notices_alternate(failures, outcomes.drop_last(), threshold);
        lemma_notice_is_transition(
            failures_after(failures, outcomes.drop_last()),
            outcomes.last(),
            threshold,
        );
    }
}

/// A run of failures that starts from a success and is not broken announces
/// the outage once if it is at least as long as the threshold, and not at
/// all if it is shorter.
pub proof fn lemma_one_alert_per_outage(run: Seq<bool>, threshold: nat)
    requires
        threshold >= 1,
        forall|i: int| 0 <= i < run.len() ==> !run[i],
    ensures
        failures_after(0, run) == run.len(),
        notices_of(0, run, threshold, Notice::Recovered) == 0,
        notices_of(0, run, threshold, Notice::Down) == if run.len() >= threshold {
            1nat
        } else {
            0nat
        },
    decreases run.len(),
{
    if run.len() > 0 {
        lemma_one_alert_per_outage(run.drop_last(), threshold);
    }
}

} // verus!
