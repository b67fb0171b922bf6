//! The state that all monitors and the query side share: statistics and
//! alert state per server, and the time the process started.

use crate::alert::{
    failures_after, notice_for, observe_outcome, zero_status, Notice, ServerStatus, StatusView,
};
use crate::clock::{elapsed, instant_now, utc_now, whole_secs, Timestamp};
use crate::stats::{
    consistent, record_outcome, stats_after, zero_stats, ServerStats, StatsView,
};
use crate::table::Table;
use vstd::prelude::*;

verus! {

/// Statistics and alert state of every server checked so far. An entry is
/// made on a server's first check and stays for good.
pub struct AppState {
    servers: Table<ServerStats>,
    status: Table<ServerStatus>,
    start_time: std::time::Instant,
}

/// `post` is `pre` with one more check of `url` counted.
pub open spec fn counted(pre: AppState, post: AppState, url: Seq<char>, ok: bool, now: Timestamp) -> bool {
    &&& post.wf()
    &&& post.stats_entry(url) == Some(record_outcome(pre.stats_of(url), ok, now))
    &&& forall|other: Seq<char>|
        other != url ==> #[trigger] post.stats_entry(other) == pre.stats_entry(other)
    &&& post.server_names() == if pre.stats_entry(url).is_some() {
        pre.server_names()
    } else {
        pre.server_names().push(url)
    }
    &&& forall|any: Seq<char>| #[trigger] post.status_entry(any) == pre.status_entry(any)
    &&& post.started() == pre.started()
}

/// `post` is `pre` with the alert rule applied to one more check of `url`.
pub open spec fn observed(pre: AppState, post: AppState, url: Seq<char>, ok: bool) -> bool {
    &&& post.wf()
    &&& post.status_entry(url) == Some(observe_outcome(pre.status_of(url), ok))
    &&& forall|other: Seq<char>|
        other != url ==> #[trigger] post.status_entry(other) == pre.status_entry(other)
    &&& forall|any: Seq<char>| #[trigger] post.stats_entry(any) == pre.stats_entry(any)
    &&& post.server_names() == pre.server_names()
    &&& post.started() == pre.started()
}

/// `post` is `pre` with the time of the last outage alert of `url` set to
/// `now`, if `url` has an alert state, and is `pre` otherwise.
pub open spec fn notified(pre: AppState, post: AppState, url: Seq<char>, now: Timestamp) -> bool {
    &&& post.wf()
    &&& post.status_entry(url) == match pre.status_entry(url) {
        Some(s) => Some(StatusView { failures: s.failures, last_notification: Some(now) }),
        None => None,
    }
    &&& forall|other: Seq<char>|
        other != url ==> #[trigger] post.status_entry(other) == pre.status_entry(other)
    &&& forall|any: Seq<char>| #[trigger] post.stats_entry(any) == pre.stats_entry(any)
    &&& post.server_names() == pre.server_names()
    &&& post.started() == pre.started()
}

/// `post` is `pre` after one whole check of `url`: counted, then judged.
pub open spec fn probed(
    pre: AppState,
    post: AppState,
    url: Seq<char>,
    ok: bool,
    now: Timestamp,
) -> bool {
    &&& post.wf()
    &&& post.stats_entry(url) == Some(record_outcome(pre.stats_of(url), ok, now))
    &&& post.status_entry(url) == Some(observe_outcome(pre.status_of(url), ok))
    &&& forall|other: Seq<char>|
        other != url ==> #[trigger] post.stats_entry(other) == pre.stats_entry(other)
    &&& forall|other: Seq<char>|
        other != url ==> #[trigger] post.status_entry(other) == pre.status_entry(other)
    &&& post.server_names() == if pre.stats_entry(url).is_some() {
        pre.server_names()
    } else {
        pre.server_names().push(url)
    }
    &&& post.started() == pre.started()
}

impl AppState {
    /// Both tables are well formed.
    pub closed spec fn wf(&self) -> bool {
        &&& self.servers.wf()
        &&& self.status.wf()
        &&& forall|i: int|
            0 <= i < self.servers.cells().len() ==> consistent(
                #[trigger] self.servers.cells()[i]@,
            )
    }

    /// In a well-formed state no server has more failures than checks.
    pub proof fn lemma_consistent(&self, url: Seq<char>)
        requires
            self.wf(),
        ensures
            consistent(self.stats_of(url)),
    {
        if self.servers.contains(url) {
            let i = self.servers.names().index_of(url);
            self.servers.lemma_position(url, i);
        }
    }

    /// The servers listed are exactly those that have statistics, and none
    /// is listed twice.
    pub proof fn lemma_listed_once(&self, url: Seq<char>)
        requires
            self.wf(),
        ensures
            self.stats_entry(url).is_some() <==> self.server_names().contains(url),
            self.server_names().no_duplicates(),
    {
    }

    /// The servers that have statistics, in the order of their first check.
    pub closed spec fn server_names(&self) -> Seq<Seq<char>> {
        self.servers.names()
    }

    /// The statistics kept for `url`, if it was ever checked.
    pub closed spec fn stats_entry(&self, url: Seq<char>) -> Option<StatsView> {
        match self.servers.entry(url) {
            Some(s) => Some(s@),
            None => None,
        }
    }

    /// The alert state kept for `url`, if the alert rule ever ran for it.
    pub closed spec fn status_entry(&self, url: Seq<char>) -> Option<StatusView> {
        match self.status.entry(url) {
            Some(s) => Some(s@),
            None => None,
        }
    }

    /// The instant at which this state was made.
    pub closed spec fn started(&self) -> std::time::Instant {
        self.start_time
    }

    /// The statistics of `url`; zero for a server never checked.
    pub open spec fn stats_of(&self, url: Seq<char>) -> StatsView {
        match self.stats_entry(url) {
            Some(s) => s,
            None => zero_stats(),
        }
    }

    /// The alert state of `url`; zero for a server never checked.
    pub open spec fn status_of(&self, url: Seq<char>) -> StatusView {
        match self.status_entry(url) {
            Some(s) => s,
            None => zero_status(),
        }
    }

    /// Neither counter of `url` stands at the machine's limit for a check
    /// with this outcome.
    pub open spec fn has_room(&self, url: Seq<char>, ok: bool) -> bool {
        &&& self.stats_of(url).total < u32::MAX
        &&& ok || self.status_of(url).failures < u32::MAX
    }

    /// A state with no server in it, started at the given instant.
    pub fn starting_at(start: std::time::Instant) -> (s: AppState)
        ensures
            s.wf(),
            s.server_names() == Seq::<Seq<char>>::empty(),
            forall|url: Seq<char>| #![trigger s.stats_entry(url)] s.stats_entry(url).is_none(),
            forall|url: Seq<char>| #![trigger s.status_entry(url)] s.status_entry(url).is_none(),
            s.started() == start,
    {
        AppState { servers: Table::new(), status: Table::new(), start_time: start }
    }

    /// A state with no server in it, started now.
    pub fn new() -> (s: AppState)
        ensures
            s.wf(),
            s.server_names() == Seq::<Seq<char>>::empty(),
            forall|url: Seq<char>| #![trigger s.stats_entry(url)] s.stats_entry(url).is_none(),
            forall|url: Seq<char>| #![trigger s.status_entry(url)] s.status_entry(url).is_none(),
    {
        AppState::starting_at(instant_now())
    }

    /// Whole seconds since this state was made, as the monotonic clock has
    /// it at the time of the call.
    pub fn uptime_secs(&self) -> u64 {
        let d = elapsed(&self.start_time);
        whole_secs(&d)
    }

    /// How many servers have statistics.
    pub fn server_count(&self) -> (n: usize)
        ensures
            n == self.server_names().len(),
    {
        self.servers.len()
    }

    /// The name and the statistics of the `i`-th server checked.
    pub fn server_at(&self, i: usize) -> (r: (&String, ServerStats))
        requires
            self.wf(),
            i < self.server_names().len(),
        ensures
            r.0@ == self.server_names()[i as int],
            self.stats_entry(r.0@) == Some(r.1@),
    {
        proof {
            self.servers.lemma_position(self.servers.names()[i as int], i as int);
        }
        (self.servers.name_at(i), self.servers.value_at(i))
    }

    /// The statistics of `url`, if it was ever checked. The state is only
    /// read: asking for an unknown server leaves no entry behind.
    pub fn stats(&self, url: &String) -> (r: Option<ServerStats>)
        requires
            self.wf(),
        ensures
            match r {
                Some(s) => self.stats_entry(url@) == Some(s@),
                None => self.stats_entry(url@).is_none(),
            },
    {
        self.servers.get(url)
    }

    /// The alert state of `url`, if the alert rule ever ran for it.
    pub fn status(&self, url: &String) -> (r: Option<ServerStatus>)
        requires
            self.wf(),
        ensures
            match r {
                Some(s) => self.status_entry(url@) == Some(s@),
                None => self.status_entry(url@).is_none(),
            },
    {
        self.status.get(url)
    }

    /// The length of the current run of failures of `url`; 0 for a server
    /// without alert state.
    pub fn consecutive_failures(&self, url: &String) -> (n: u32)
        requires
            self.wf(),
        ensures
            n == self.status_of(url@).failures,
    {
        match self.status.get(url) {
            Some(s) => s.consecutive_failures,
            None => 0,
        }
    }

    /// Whether a check of `url` with this outcome can still be counted.
    pub fn can_apply(&self, url: &String, ok: bool) -> (r: bool)
        requires
            self.wf(),
        ensures
            r == self.has_room(url@, ok),
    {
        let stats_fit = match self.servers.get(url) {
            Some(s) => s.has_room(),
            None => true,
        };
        let status_fits = ok || match self.status.get(url) {
            Some(s) => s.has_room(),
            None => true,
        };
        stats_fit && status_fits
    }

    /// Counts one completed check of `url`, entering the server on its first
    /// check.
    pub fn record_check_at(&mut self, url: &String, ok: bool, now: Timestamp)
        requires
            old(self).wf(),
            old(self).stats_of(url@).total < u32::MAX,
        ensures
            counted(*old(self), *final(self), url@, ok, now),
    {
        let i = self.servers.slot(url, ServerStats::new());
        let mut s = self.servers.value_at(i);
        s.record(ok, now);
        let ghost entered = self.servers.cells();
        self.servers.put(i, s);
        proof {
            assert forall|j: int| 0 <= j < self.servers.cells().len() implies consistent(
                #[trigger] self.servers.cells()[j]@,
            ) by {
                if j != i {
                    assert(self.servers.cells()[j] == entered[j]);
                    if j < old(self).servers.cells().len() {
                        assert(entered[j] == old(self).servers.cells()[j]);
                    }
                }
            }
        }
    }

    /// Applies the alert rule to one completed check of `url` and says what
    /// is to be announced.
    pub fn observe(&mut self, url: &String, ok: bool, threshold: u32) -> (notice: Notice)
        requires
            old(self).wf(),
            ok || old(self).status_of(url@).failures < u32::MAX,
        ensures
            observed(*old(self), *final(self), url@, ok),
            notice == notice_for(old(self).status_of(url@).failures, ok, threshold as nat),
    {
        let i = self.status.slot(url, ServerStatus::new());
        let mut s = self.status.value_at(i);
        let notice = s.observe(ok, threshold);
        self.status.put(i, s);
        notice
    }

    /// Notes `now` as the time of the last outage alert of `url`. A server
    /// without alert state gets none.
    pub fn mark_notified_at(&mut self, url: &String, now: Timestamp)
        requires
            old(self).wf(),
        ensures
            notified(*old(self), *final(self), url@, now),
    {
        match self.status.find(url) {
            Some(i) => {
                proof {
                    self.status.lemma_position(url@, i as int);
                }
                let mut s = self.status.value_at(i);
                s.last_notification = Some(now);
                self.status.put(i, s);
            },
            None => {},
        }
    }

    /// One whole check of `url` at time `now`: the outcome is counted, the
    /// alert rule is applied, and the notice to send is returned.
    pub fn apply_probe_at(&mut self, url: &String, ok: bool, threshold: u32, now: Timestamp) -> (notice: Notice)
        requires
            old(self).wf(),
            old(self).has_room(url@, ok),
        ensures
            probed(*old(self), *final(self), url@, ok, now),
            notice == notice_for(old(self).status_of(url@).failures, ok, threshold as nat),
    {
        self.record_check_at(url, ok, now);
        self.observe(url, ok, threshold)
    }

    /// One whole check of `url`, timed by the wall clock: for the time that
    /// the clock gave, the state is as `apply_probe_at` leaves it.
    pub fn apply_probe(&mut self, url: &String, ok: bool, threshold: u32) -> (notice: Notice)
        requires
            old(self).wf(),
            old(self).has_room(url@, ok),
        ensures
            exists|now: Timestamp| probed(*old(self), *final(self), url@, ok, now),
            notice == notice_for(old(self).status_of(url@).failures, ok, threshold as nat),
    {
        let now = utc_now();
        self.apply_probe_at(url, ok, threshold, now)
    }

    /// Closes the sending of a notice at time `now`. An outage alert leaves
    /// its time with the server, whether or not it could be delivered; any
    /// other notice leaves the state as it is.
    pub fn note_sent_at(&mut self, url: &String, notice: Notice, now: Timestamp)
        requires
            old(self).wf(),
        ensures
            final(self).wf(),
            notice == Notice::Down ==> notified(*old(self), *final(self), url@, now),
            notice != Notice::Down ==> *final(self) == *old(self),
    {
        match notice {
            Notice::Down => {
                self.mark_notified_at(url, now);
            },
            _ => {},
        }
    }

    /// Closes the sending of a notice, timed by the wall clock: for the time
    /// that the clock gave, the state is as `note_sent_at` leaves it.
    pub fn note_sent(&mut self, url: &String, notice: Notice)
        requires
            old(self).wf(),
        ensures
            final(self).wf(),
            notice == Notice::Down ==> exists|now: Timestamp|
                notified(*old(self), *final(self), url@, now),
            notice != Notice::Down ==> *final(self) == *old(self),
    {
        let now = utc_now();
        self.note_sent_at(url, notice, now);
    }
}

/// A check of one server lowers no counter of any server, keeps every
/// server's statistics consistent, and removes no server.
pub proof fn lemma_probe_keeps_counters(
    pre: AppState,
    post: AppState,
    url: Seq<char>,
    ok: bool,
    now: Timestamp,
    any: Seq<char>,
)
    requires
        pre.wf(),
        probed(pre, post, url, ok, now),
    ensures
        consistent(post.stats_of(any)),
        post.stats_of(any).total >= pre.stats_of(any).total,
        post.stats_of(any).failed >= pre.stats_of(any).failed,
        pre.stats_entry(any).is_some() ==> post.stats_entry(any).is_some(),
        any != url ==> post.stats_of(any) == pre.stats_of(any) && post.status_of(any)
            == pre.status_of(any),
{
    post.lemma_consistent(any);
    if any != url {
        assert(post.stats_entry(any) == pre.stats_entry(any));
        assert(post.status_entry(any) == pre.status_entry(any));
    }
}

/// Counting a check and then applying the alert rule, as two steps, is one
/// whole check.
pub proof fn lemma_two_steps_are_one(
    pre: AppState,
    mid: AppState,
    post: AppState,
    url: Seq<char>,
    ok: bool,
    now: Timestamp,
)
    requires
        counted(pre, mid, url, ok, now),
        observed(mid, post, url, ok),
    ensures
        probed(pre, post, url, ok, now),
{
    assert(mid.status_entry(url) == pre.status_entry(url));
    assert(post.stats_entry(url) == mid.stats_entry(url));
    assert forall|other: Seq<char>| other != url implies #[trigger] post.stats_entry(other)
        == pre.stats_entry(other) by {
        assert(post.stats_entry(other) == mid.stats_entry(other));
    }
    assert forall|other: Seq<char>| other != url implies #[trigger] post.status_entry(other)
        == pre.status_entry(other) by {
        assert(mid.status_entry(other) == pre.status_entry(other));
    }
}

/// One completed check, as the state sees it.
pub struct ProbeEvent {
    pub url: Seq<char>,
    pub ok: bool,
    pub now: Timestamp,
}

/// `states` is the course of a state over the checks `events`, of any
/// servers in any order: each state comes from the one before it by one whole
/// check.
pub open spec fn history(states: Seq<AppState>, events: Seq<ProbeEvent>) -> bool {
    &&& states.len() == events.len() + 1
    &&& states[0].wf()
    &&& forall|i: int|
        0 <= i < events.len() ==> probed(
            #[trigger] states[i],
            states[i + 1],
            events[i].url,
            events[i].ok,
            events[i].now,
        )
}

/// The checks of `url` among `events`, in their order.
pub open spec fn checks_of(events: Seq<ProbeEvent>, url: Seq<char>) -> Seq<(bool, Timestamp)>
    decreases events.len(),
{
    if events.len() == 0 {
        Seq::<(bool, Timestamp)>::empty()
    } else {
        let earlier = checks_of(events.drop_last(), url);
        let last = events.last();
        if last.url == url {
            earlier.push((last.ok, last.now))
        } else {
            earlier
        }
    }
}

/// The outcomes of the checks of `url` among `events`, in their order.
pub open spec fn outcomes_of(events: Seq<ProbeEvent>, url: Seq<char>) -> Seq<bool>
    decreases events.len(),
{
    if events.len() == 0 {
        Seq::<bool>::empty()
    } else {
        let earlier = outcomes_of(events.drop_last(), url);
        let last = events.last();
        if last.url == url {
            earlier.push(last.ok)
        } else {
            earlier
        }
    }
}

/// Over any course of checks, no counter of any server is ever lower at a
/// later state than at an earlier one, every state keeps every server's
/// failures within its checks, and a server once entered stays.
pub proof fn lemma_history_keeps_counters(
    states: Seq<AppState>,
    events: Seq<ProbeEvent>,
    i: int,
    j: int,
    any: Seq<char>,
)
    requires
        history(states, events),
        0 <= i <= j < states.len(),
    ensures
        states[j].wf(),
        consistent(states[j].stats_of(any)),
        states[i].stats_of(any).total <= states[j].stats_of(any).total,
        states[i].stats_of(any).failed <= states[j].stats_of(any).failed,
        states[i].stats_entry(any).is_some() ==> states[j].stats_entry(any).is_some(),
    decreases j - i,
{
    if j > 0 {
        let e = events[j - 1];
        assert(probed(states[j - 1], states[j], e.url, e.ok, e.now));
    }
    states[j].lemma_consistent(any);
    if i < j {
        let e = events[j - 1];
        lemma_history_keeps_counters(states, events, i, j - 1, any);
        lemma_probe_keeps_counters(states[j - 1], states[j], e.url, e.ok, e.now, any);
    }
}

/// Over any course of checks, what the state holds of a server at the end
/// depends on that server's own checks alone, in their order: its statistics
/// are those of counting them one after the other, and its run of failures
/// is that of applying the alert rule to them. The checks of other servers,
/// however they fall between, change nothing of it.
pub proof fn lemma_history_is_per_server(
    states: Seq<AppState>,
    events: Seq<ProbeEvent>,
    url: Seq<char>,
)
    requires
        history(states, events),
    ensures
        states.last().stats_of(url) == stats_after(states[0].stats_of(url), checks_of(events, url)),
        states.last().status_of(url).failures == failures_after(
            states[0].status_of(url).failures,
            outcomes_of(events, url),
        ),
        states.last().status_of(url).last_notification == states[0].status_of(
            url,
        ).last_notification,
    decreases events.len(),
{
    if events.len() > 0 {
        let n = events.len() as int;
        let before = states.drop_last();
        let earlier = events.drop_last();
        assert(history(before, earlier)) by {
            assert forall|i: int| 0 <= i < earlier.len() implies probed(
                #[trigger] before[i],
                before[i + 1],
                earlier[i].url,
                earlier[i].ok,
                earlier[i].now,
            ) by {
                assert(probed(states[i], states[i + 1], events[i].url, events[i].ok, events[i].now));
            }
        }
        lemma_history_is_per_server(before, earlier, url);
        let e = events.last();
        assert(before.last() == states[n - 1]);
        assert(probed(states[n - 1], states[n], e.url, e.ok, e.now));
        if e.url == url {
            let own = checks_of(earlier, url);
            assert(own.push((e.ok, e.now)).drop_last() =~= own);
            let runs = outcomes_of(earlier, url);
            assert(runs.push(e.ok).drop_last() =~= runs);
        } else {
            assert(states[n].stats_entry(url) == states[n - 1].stats_entry(url));
            assert(states[n].status_entry(url) == states[n - 1].status_entry(url));
        }
    }
}

} // verus!
