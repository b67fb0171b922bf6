use iz_prober::clock::Timestamp;
use iz_prober::query::{
    join_lines, not_found_message, stats_message, stats_reply, uptime_line, uptime_report,
    RowTexts,
};
use iz_prober::state::AppState;
use iz_prober::stats::{Availability, ServerStats};
use iz_prober::table::Table;

fn at(secs: i64) -> Timestamp {
    Timestamp { secs, nanos: 0 }
}

fn texts(percent: &str, last_failure: &str) -> RowTexts {
    RowTexts { percent: String::from(percent), last_failure: String::from(last_failure) }
}

#[test]
fn counters_follow_the_outcomes() {
    let mut s = ServerStats::new();
    assert_eq!(s.total_checks(), 0);
    assert_eq!(s.failed_checks(), 0);
    assert_eq!(s.last_failure(), None);
    let outcomes = [true, false, false, true, false, true, true];
    let mut total = 0;
    let mut failed = 0;
    for (i, ok) in outcomes.iter().enumerate() {
        assert!(s.has_room());
        s.record(*ok, at(i as i64));
        assert!(s.total_checks() >= total);
        assert!(s.failed_checks() >= failed);
        assert!(s.failed_checks() <= s.total_checks());
        total = s.total_checks();
        failed = s.failed_checks();
    }
    assert_eq!(total, 7);
    assert_eq!(failed, 3);
    assert_eq!(s.last_failure(), Some(at(4)));
}

#[test]
fn availability_is_successes_over_total() {
    let mut s = ServerStats::new();
    assert_eq!(s.availability(), Availability::NoData);
    s.record(true, at(1));
    s.record(false, at(2));
    s.record(true, at(3));
    assert_eq!(s.availability(), Availability::Ratio { successes: 2, total: 3 });
}

#[test]
fn new_state_is_empty() {
    let state = AppState::new();
    assert_eq!(state.server_count(), 0);
    let url = String::from("http://a.example");
    assert!(state.stats(&url).is_none());
    assert!(state.status(&url).is_none());
    assert_eq!(state.consecutive_failures(&url), 0);
    assert!(state.uptime_secs() < 60);
}

#[test]
fn first_check_enters_the_server() {
    let mut state = AppState::new();
    let a = String::from("a");
    let b = String::from("b");
    state.record_check_at(&b, true, at(1));
    state.record_check_at(&a, false, at(2));
    state.record_check_at(&b, false, at(3));
    assert_eq!(state.server_count(), 2);
    let (n0, s0) = state.server_at(0);
    assert_eq!(n0, "b");
    assert_eq!((s0.total_checks(), s0.failed_checks(), s0.last_failure()), (2, 1, Some(at(3))));
    let (n1, s1) = state.server_at(1);
    assert_eq!(n1, "a");
    assert_eq!((s1.total_checks(), s1.failed_checks(), s1.last_failure()), (1, 1, Some(at(2))));
    assert!(state.status(&a).is_none());
}

#[test]
fn probe_is_timed_by_the_clock() {
    let mut state = AppState::new();
    let a = String::from("a");
    assert!(state.can_apply(&a, false));
    state.apply_probe(&a, false, 3);
    let s = state.stats(&a).unwrap();
    assert_eq!(s.total_checks(), 1);
    assert_eq!(s.failed_checks(), 1);
    assert!(s.last_failure().unwrap().secs > 1_600_000_000);
    state.apply_probe(&a, true, 3);
    let s = state.stats(&a).unwrap();
    assert_eq!(s.total_checks(), 2);
    assert_eq!(s.failed_checks(), 1);
}

#[test]
fn unknown_server_lists_the_configured_ones() {
    let mut state = AppState::new();
    let a = String::from("http://a.example");
    state.apply_probe_at(&a, true, 3, at(1));
    let configured = vec![String::from("http://a.example"), String::from("http://b.example")];
    let name = String::from("unknown");
    let reply = stats_reply(&state, &configured, &name, &texts("", ""));
    assert_eq!(
        reply,
        "Server 'unknown' not found in monitoring list. Available servers:\nhttp://a.example\nhttp://b.example"
    );
    assert_eq!(state.server_count(), 1);
    assert!(state.stats(&name).is_none());
    assert!(state.status(&name).is_none());
}

#[test]
fn configured_but_unchecked_server_is_not_found() {
    let state = AppState::new();
    let configured = vec![String::from("x")];
    let reply = stats_reply(&state, &configured, &String::from("x"), &texts("", ""));
    assert_eq!(reply, "Server 'x' not found in monitoring list. Available servers:\nx");
    assert_eq!(state.server_count(), 0);
}

#[test]
fn not_found_with_no_servers() {
    assert_eq!(
        not_found_message(&String::from("q"), &Vec::new()),
        "Server 'q' not found in monitoring list. Available servers:\n"
    );
    assert_eq!(join_lines(&Vec::new()), "");
    assert_eq!(join_lines(&vec![String::from("one")]), "one");
    assert_eq!(
        join_lines(&vec![String::from("one"), String::from("two"), String::from("three")]),
        "one\ntwo\nthree"
    );
}

#[test]
fn known_server_gets_its_statistics() {
    let mut state = AppState::new();
    let a = String::from("http://a.example");
    state.apply_probe_at(&a, true, 3, at(1));
    state.apply_probe_at(&a, false, 3, at(2));
    state.apply_probe_at(&a, false, 3, at(3));
    let reply = stats_reply(&state, &Vec::new(), &a, &texts("33.33%", "2024-01-01 00:00:03 +00:00"));
    assert_eq!(
        reply,
        "Statistics for http://a.example:\nAvailability: 33.33%\nTotal checks: 3\nTotal failures: 2\nCurrent consecutive failures: 2\nLast failure: 2024-01-01 00:00:03 +00:00"
    );
}

#[test]
fn statistics_without_failure_say_never() {
    let mut s = ServerStats::new();
    s.record(true, at(1));
    assert_eq!(
        stats_message(&String::from("a"), &s, 0, &texts("100.00%", "unused")),
        "Statistics for a:\nAvailability: 100.00%\nTotal checks: 1\nTotal failures: 0\nCurrent consecutive failures: 0\nLast failure: never"
    );
}

#[test]
fn unchecked_server_reports_no_data() {
    let s = ServerStats::new();
    let line = uptime_line(&String::from("a"), &s, &texts("NaN%", "unused"));
    assert_eq!(line, "a - availability: no data, checks: 0, failures: 0, last failure: never\n");
    assert_eq!(
        stats_message(&String::from("a"), &s, 0, &texts("NaN%", "unused")),
        "Statistics for a:\nAvailability: no data\nTotal checks: 0\nTotal failures: 0\nCurrent consecutive failures: 0\nLast failure: never"
    );
}

#[test]
fn uptime_report_lists_every_server_in_order() {
    let mut state = AppState::new();
    let a = String::from("http://a.example");
    let b = String::from("http://b.example");
    state.apply_probe_at(&b, true, 3, at(1));
    state.apply_probe_at(&a, false, 3, at(2));
    state.apply_probe_at(&a, true, 3, at(3));
    let rows = vec![texts("100.00%", ""), texts("50.00%", "then")];
    assert_eq!(
        uptime_report(&state, 90061, &rows),
        "Monitoring statistics:\nUptime: 1 days, 1 hours, 1 minutes, 1 seconds\nMonitored servers:\nhttp://b.example - availability: 100.00%, checks: 1, failures: 0, last failure: never\nhttp://a.example - availability: 50.00%, checks: 2, failures: 1, last failure: then\n"
    );
}

#[test]
fn uptime_report_of_empty_state() {
    let state = AppState::new();
    assert_eq!(
        uptime_report(&state, 0, &Vec::new()),
        "Monitoring statistics:\nUptime: 0 days, 0 hours, 0 minutes, 0 seconds\nMonitored servers:\n"
    );
}

#[test]
fn table_keeps_order_and_values() {
    let mut t: Table<u32> = Table::new();
    assert_eq!(t.len(), 0);
    let a = String::from("a");
    let b = String::from("b");
    assert_eq!(t.find(&a), None);
    assert_eq!(t.get(&a), None);
    assert_eq!(t.slot(&a, 5), 0);
    assert_eq!(t.slot(&b, 6), 1);
    assert_eq!(t.slot(&a, 7), 0);
    assert_eq!(t.len(), 2);
    assert_eq!(t.get(&a), Some(5));
    t.put(0, 9);
    assert_eq!(t.get(&a), Some(9));
    assert_eq!(t.get(&b), Some(6));
    assert_eq!(t.find(&b), Some(1));
    assert_eq!(t.name_at(1), "b");
    assert_eq!(t.value_at(1), 6);
}
