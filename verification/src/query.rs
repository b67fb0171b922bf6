//! The answers to the two queries: the overall report and one server's
//! statistics.

use crate::state::AppState;
use crate::stats::{ServerStats, StatsView};
use crate::text::{decimal, decimal_text, duration_text, format_duration};
use vstd::prelude::*;
use vstd::string::*;

verus! {

/// What the caller renders for one server: the availability as a percentage
/// and the time of the last failure in local time. Each is used only where
/// the statistics have such a value.
pub struct RowTexts {
    pub percent: String,
    pub last_failure: String,
}

/// The availability in a report: "no data" before the first check.
pub open spec fn availability_text(s: StatsView, percent: Seq<char>) -> Seq<char> {
    if s.total == 0 {
        "no data"@
    } else {
        percent
    }
}

/// The last failure in a report: "never" while there was none.
pub open spec fn last_failure_text(s: StatsView, rendered: Seq<char>) -> Seq<char> {
    if s.last_failure.is_none() {
        "never"@
    } else {
        rendered
    }
}

/// The line of one server in the overall report.
pub open spec fn line_text(url: Seq<char>, s: StatsView, percent: Seq<char>, rendered: Seq<char>) -> Seq<char> {
    url + " - availability: "@ + availability_text(s, percent) + ", checks: "@ + decimal_text(
        s.total,
    ) + ", failures: "@ + decimal_text(s.failed) + ", last failure: "@ + last_failure_text(
        s,
        rendered,
    ) + "\n"@
}

/// The head of the overall report.
pub open spec fn header_text(uptime_secs: nat) -> Seq<char> {
    "Monitoring statistics:\nUptime: "@ + duration_text(uptime_secs) + "\nMonitored servers:\n"@
}

/// The lines of the first `n` servers, in the order of their first check.
pub open spec fn lines_text(state: AppState, texts: Seq<RowTexts>, n: nat) -> Seq<char>
    decreases n,
{
    if n == 0 {
        Seq::<char>::empty()
    } else {
        let i = (n - 1) as int;
        let url = state.server_names()[i];
        lines_text(state, texts, (n - 1) as nat) + line_text(
            url,
            state.stats_of(url),
            texts[i].percent@,
            texts[i].last_failure@,
        )
    }
}

/// The overall report: head, then one line for every server.
pub open spec fn uptime_text(state: AppState, uptime_secs: nat, texts: Seq<RowTexts>) -> Seq<char> {
    header_text(uptime_secs) + lines_text(state, texts, state.server_names().len())
}

/// The statistics of one server.
pub open spec fn stats_text(
    name: Seq<char>,
    s: StatsView,
    failures: nat,
    percent: Seq<char>,
    rendered: Seq<char>,
) -> Seq<char> {
    "Statistics for "@ + name + ":\nAvailability: "@ + availability_text(s, percent)
        + "\nTotal checks: "@ + decimal_text(s.total) + "\nTotal failures: "@ + decimal_text(
        s.failed,
    ) + "\nCurrent consecutive failures: "@ + decimal_text(failures) + "\nLast failure: "@
        + last_failure_text(s, rendered)
}

/// The first `n` names, one per line.
pub open spec fn joined(names: Seq<Seq<char>>, n: nat) -> Seq<char>
    decreases n,
{
    if n == 0 {
        Seq::<char>::empty()
    } else if n == 1 {
        names[0]
    } else {
        joined(names, (n - 1) as nat) + "\n"@ + names[n - 1]
    }
}

/// The answer for a server that is not monitored: it lists the configured
/// servers.
pub open spec fn not_found_text(name: Seq<char>, configured: Seq<Seq<char>>) -> Seq<char> {
    "Server '"@ + name + "' not found in monitoring list. Available servers:\n"@ + joined(
        configured,
        configured.len(),
    )
}

/// The answer to a query for one server.
pub open spec fn stats_reply_text(
    state: AppState,
    configured: Seq<Seq<char>>,
    name: Seq<char>,
    percent: Seq<char>,
    rendered: Seq<char>,
) -> Seq<char> {
    match state.stats_entry(name) {
        Some(s) => stats_text(name, s, state.status_of(name).failures, percent, rendered),
        None => not_found_text(name, configured),
    }
}

/// The views of a list of names.
pub open spec fn names_of(list: Seq<String>) -> Seq<Seq<char>> {
    list.map_values(|s: String| s@)
}

fn availability_str<'a>(stats: &ServerStats, percent: &'a String) -> (s: &'a str)
    ensures
        s@ == availability_text(stats@, percent@),
{
    if stats.total_checks() == 0 {
        "no data"
    } else {
        percent.as_str()
    }
}

fn last_failure_str<'a>(stats: &ServerStats, rendered: &'a String) -> (s: &'a str)
    ensures
        s@ == last_failure_text(stats@, rendered@),
{
    if stats.last_failure().is_none() {
        "never"
    } else {
        rendered.as_str()
    }
}

/// Writes the line of one server in the overall report.
pub fn uptime_line(url: &String, stats: &ServerStats, texts: &RowTexts) -> (s: String)
    ensures
        s@ == line_text(url@, stats@, texts.percent@, texts.last_failure@),
{
    let mut s = url.clone();
    s.append(" - availability: ");
    s.append(availability_str(stats, &texts.percent));
    s.append(", checks: ");
    s.append(decimal(stats.total_checks() as u64).as_str());
    s.append(", failures: ");
    s.append(decimal(stats.failed_checks() as u64).as_str());
    s.append(", last failure: ");
    s.append(last_failure_str(stats, &texts.last_failure));
    s.append("\n");
    s
}

/// Writes the overall report for a process that has run for `uptime_secs`
/// seconds. `texts` holds the rendered values of each server, in the order of
/// the servers.
pub fn uptime_report(state: &AppState, uptime_secs: u64, texts: &Vec<RowTexts>) -> (s: String)
    requires
        state.wf(),
        texts.len() == state.server_names().len(),
    ensures
        s@ == uptime_text(*state, uptime_secs as nat, texts@),
{
    let mut s = String::from_str("Monitoring statistics:\nUptime: ");
    s.append(format_duration(uptime_secs).as_str());
    s.append("\nMonitored servers:\n");
    let n = state.server_count();
    let mut i: usize = 0;
    assert(s@ =~= header_text(uptime_secs as nat) + lines_text(*state, texts@, 0));
    while i < n
        invariant
            state.wf(),
            n == state.server_names().len(),
            n == texts.len(),
            i <= n,
            s@ == header_text(uptime_secs as nat) + lines_text(*state, texts@, i as nat),
        decreases n - i,
    {
        let (url, stats) = state.server_at(i);
        let line = uptime_line(url, &stats, &texts[i]);
        let ghost before = s@;
        s.append(line.as_str());
        proof {
            let head = header_text(uptime_secs as nat);
            let done = lines_text(*state, texts@, i as nat);
            assert(lines_text(*state, texts@, (i + 1) as nat) == done + line@);
            assert(before + line@ =~= head + (done + line@));
        }
        i += 1;
    }
    s
}

/// Writes the statistics of one server. `failures` is the length of its
/// current run of failures.
pub fn stats_message(name: &String, stats: &ServerStats, failures: u32, texts: &RowTexts) -> (s:
    String)
    ensures
        s@ == stats_text(name@, stats@, failures as nat, texts.percent@, texts.last_failure@),
{
    let mut s = String::from_str("Statistics for ");
    s.append(name.as_str());
    s.append(":\nAvailability: ");
    s.append(availability_str(stats, &texts.percent));
    s.append("\nTotal checks: ");
    s.append(decimal(stats.total_checks() as u64).as_str());
    s.append("\nTotal failures: ");
    s.append(decimal(stats.failed_checks() as u64).as_str());
    s.append("\nCurrent consecutive failures: ");
    s.append(decimal(failures as u64).as_str());
    s.append("\nLast failure: ");
    s.append(last_failure_str(stats, &texts.last_failure));
    s
}

/// Writes the names one per line.
pub fn join_lines(names: &Vec<String>) -> (s: String)
    ensures
        s@ == joined(names_of(names@), names@.len()),
{
    let mut s = String::new();
    let mut i: usize = 0;
    while i < names.len()
        invariant
            i <= names.len(),
            s@ == joined(names_of(names@), i as nat),
        decreases names.len() - i,
    {
        let ghost before = s@;
        if i > 0 {
            s.append("\n");
        }
        s.append(names[i].as_str());
        proof {
            assert(names_of(names@)[i as int] == names[i as int]@);
            if i == 0 {
                assert(s@ =~= names[0]@);
            }
        }
        i += 1;
    }
    s
}

/// Writes the answer for a server that is not monitored.
pub fn not_found_message(name: &String, configured: &Vec<String>) -> (s: String)
    ensures
        s@ == not_found_text(name@, names_of(configured@)),
{
    let mut s = String::from_str("Server '");
    s.append(name.as_str());
    s.append("' not found in monitoring list. Available servers:\n");
    s.append(join_lines(configured).as_str());
    s
}

/// Answers a query for the server `name`. A server with statistics gets
/// them, with the length of its current run of failures; any other name gets
/// the list of the configured servers. The state is only read.
pub fn stats_reply(
    state: &AppState,
    configured: &Vec<String>,
    name: &String,
    texts: &RowTexts,
) -> (s: String)
    requires
        state.wf(),
    ensures
        s@ == stats_reply_text(
            *state,
            names_of(configured@),
            name@,
            texts.percent@,
            texts.last_failure@,
        ),
{
    match state.stats(name) {
        Some(stats) => {
            let failures = state.consecutive_failures(name);
            stats_message(name, &stats, failures, texts)
        },
        None => not_found_message(name, configured),
    }
}

/// A query for a server without statistics is answered with the list of all
/// configured servers, whatever the caller rendered.
pub proof fn lemma_unknown_server(
    state: AppState,
    configured: Seq<Seq<char>>,
    name: Seq<char>,
    percent: Seq<char>,
    rendered: Seq<char>,
)
    requires
        state.stats_entry(name).is_none(),
    ensures
        stats_reply_text(state, configured, name, percent, rendered) == not_found_text(
            name,
            configured,
        ),
{
}

/// Before the first check of a server its availability reads "no data",
/// and no report depends on the percentage that the caller rendered.
pub proof fn lemma_no_data(
    url: Seq<char>,
    s: StatsView,
    failures: nat,
    percent: Seq<char>,
    other_percent: Seq<char>,
    rendered: Seq<char>,
)
    requires
        s.total == 0,
    ensures
        availability_text(s, percent) == "no data"@,
        line_text(url, s, percent, rendered) == line_text(url, s, other_percent, rendered),
        stats_text(url, s, failures, percent, rendered) == stats_text(
            url,
            s,
            failures,
            other_percent,
            rendered,
        ),
{
}

} // verus!
