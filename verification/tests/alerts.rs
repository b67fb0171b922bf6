use iz_prober::alert::{Notice, ServerStatus};
use iz_prober::clock::Timestamp;
use iz_prober::state::AppState;
use iz_prober::text::{decimal, down_message, format_duration, notice_message, recovery_message};

fn at(secs: i64) -> Timestamp {
    Timestamp { secs, nanos: 0 }
}

fn run(state: &mut AppState, url: &String, threshold: u32, outcomes: &[bool]) -> Vec<Notice> {
    let mut notices = Vec::new();
    for (i, ok) in outcomes.iter().enumerate() {
        assert!(state.can_apply(url, *ok));
        notices.push(state.apply_probe_at(url, *ok, threshold, at(i as i64)));
    }
    notices
}

#[test]
fn outage_is_announced_once_and_recovery_once() {
    let mut state = AppState::new();
    let url = String::from("http://a.example");
    let notices = run(&mut state, &url, 3, &[false, false, false, false, true]);
    assert_eq!(
        notices,
        vec![Notice::Silent, Notice::Silent, Notice::Down, Notice::Silent, Notice::Recovered]
    );
    assert_eq!(notices.iter().filter(|n| **n != Notice::Silent).count(), 2);
    assert_eq!(state.consecutive_failures(&url), 0);
}

#[test]
fn long_outage_still_gives_two_notices() {
    let mut state = AppState::new();
    let url = String::from("http://a.example");
    let mut outcomes = vec![false; 40];
    outcomes.push(true);
    let notices = run(&mut state, &url, 3, &outcomes);
    assert_eq!(notices.iter().filter(|n| **n == Notice::Down).count(), 1);
    assert_eq!(notices.iter().filter(|n| **n == Notice::Recovered).count(), 1);
    assert_eq!(notices[2], Notice::Down);
    assert_eq!(notices[40], Notice::Recovered);
}

#[test]
fn success_resets_the_run_below_threshold() {
    let mut state = AppState::new();
    let url = String::from("http://a.example");
    let notices = run(&mut state, &url, 3, &[false, false, true, false, false, false]);
    assert_eq!(
        notices,
        vec![
            Notice::Silent,
            Notice::Silent,
            Notice::Silent,
            Notice::Silent,
            Notice::Silent,
            Notice::Down
        ]
    );
    assert_eq!(state.consecutive_failures(&url), 3);
}

#[test]
fn threshold_one_fires_on_first_failure() {
    let mut state = AppState::new();
    let url = String::from("u");
    let notices = run(&mut state, &url, 1, &[false, false, true, true]);
    assert_eq!(
        notices,
        vec![Notice::Down, Notice::Silent, Notice::Recovered, Notice::Silent]
    );
}

#[test]
fn threshold_zero_never_announces_an_outage() {
    let mut state = AppState::new();
    let url = String::from("u");
    let notices = run(&mut state, &url, 0, &[false, false, true, true]);
    assert_eq!(
        notices,
        vec![Notice::Silent, Notice::Silent, Notice::Recovered, Notice::Recovered]
    );
}

#[test]
fn first_success_is_silent() {
    let mut state = AppState::new();
    let url = String::from("u");
    assert_eq!(run(&mut state, &url, 3, &[true]), vec![Notice::Silent]);
}

#[test]
fn status_observe_counts_the_run() {
    let mut s = ServerStatus::new();
    assert_eq!(s.consecutive_failures, 0);
    assert_eq!(s.last_notification, None);
    assert!(s.has_room());
    assert_eq!(s.observe(false, 2), Notice::Silent);
    assert_eq!(s.consecutive_failures, 1);
    assert_eq!(s.observe(false, 2), Notice::Down);
    assert_eq!(s.consecutive_failures, 2);
    assert_eq!(s.observe(false, 2), Notice::Silent);
    assert_eq!(s.consecutive_failures, 3);
    assert_eq!(s.observe(true, 2), Notice::Recovered);
    assert_eq!(s.consecutive_failures, 0);
}

#[test]
fn status_at_the_limit_has_no_room() {
    let s = ServerStatus { consecutive_failures: u32::MAX, last_notification: None };
    assert!(!s.has_room());
}

#[test]
fn endpoints_do_not_share_alert_state() {
    let mut state = AppState::new();
    let a = String::from("a");
    let b = String::from("b");
    assert_eq!(state.apply_probe_at(&a, false, 2, at(1)), Notice::Silent);
    assert_eq!(state.apply_probe_at(&b, false, 2, at(2)), Notice::Silent);
    assert_eq!(state.apply_probe_at(&a, false, 2, at(3)), Notice::Down);
    assert_eq!(state.apply_probe_at(&b, true, 2, at(4)), Notice::Silent);
    assert_eq!(state.consecutive_failures(&a), 2);
    assert_eq!(state.consecutive_failures(&b), 0);
}

#[test]
fn mark_notified_sets_the_time() {
    let mut state = AppState::new();
    let url = String::from("a");
    state.mark_notified_at(&url, at(9));
    assert!(state.status(&url).is_none());
    state.apply_probe_at(&url, false, 1, at(1));
    assert_eq!(state.status(&url).unwrap().last_notification, None);
    state.mark_notified_at(&url, at(9));
    let s = state.status(&url).unwrap();
    assert_eq!(s.last_notification, Some(at(9)));
    assert_eq!(s.consecutive_failures, 1);
}

#[test]
fn sent_outage_alert_is_timed_by_the_clock() {
    let mut state = AppState::new();
    let url = String::from("a");
    let notice = state.apply_probe_at(&url, false, 1, at(1));
    assert_eq!(notice, Notice::Down);
    state.note_sent(&url, notice);
    let t = state.status(&url).unwrap().last_notification.unwrap();
    assert!(t.secs > 1_600_000_000);
    assert!(t.nanos < 2_000_000_000);
}

#[test]
fn only_an_outage_alert_leaves_its_time() {
    let mut state = AppState::new();
    let url = String::from("a");
    state.apply_probe_at(&url, false, 1, at(1));
    state.note_sent_at(&url, Notice::Recovered, at(5));
    assert_eq!(state.status(&url).unwrap().last_notification, None);
    state.note_sent_at(&url, Notice::Silent, at(6));
    assert_eq!(state.status(&url).unwrap().last_notification, None);
    state.note_sent_at(&url, Notice::Down, at(7));
    assert_eq!(state.status(&url).unwrap().last_notification, Some(at(7)));
    state.apply_probe_at(&url, true, 1, at(8));
    assert_eq!(state.status(&url).unwrap().last_notification, Some(at(7)));
    assert_eq!(state.stats(&url).unwrap().total_checks(), 2);
}

#[test]
fn two_steps_equal_one_probe() {
    let mut one = AppState::new();
    let mut two = AppState::new();
    let url = String::from("a");
    for ok in [false, false, true, false] {
        let n1 = one.apply_probe_at(&url, ok, 2, at(7));
        two.record_check_at(&url, ok, at(7));
        let n2 = two.observe(&url, ok, 2);
        assert_eq!(n1, n2);
    }
    assert_eq!(one.stats(&url).unwrap().total_checks(), two.stats(&url).unwrap().total_checks());
    assert_eq!(one.consecutive_failures(&url), two.consecutive_failures(&url));
}

#[test]
fn decimal_values() {
    assert_eq!(decimal(0), "0");
    assert_eq!(decimal(9), "9");
    assert_eq!(decimal(10), "10");
    assert_eq!(decimal(1234567890), "1234567890");
    assert_eq!(decimal(u64::MAX), "18446744073709551615");
}

#[test]
fn duration_values() {
    assert_eq!(format_duration(0), "0 days, 0 hours, 0 minutes, 0 seconds");
    assert_eq!(format_duration(59), "0 days, 0 hours, 0 minutes, 59 seconds");
    assert_eq!(format_duration(3600), "0 days, 1 hours, 0 minutes, 0 seconds");
    assert_eq!(format_duration(90061), "1 days, 1 hours, 1 minutes, 1 seconds");
    assert_eq!(format_duration(86399), "0 days, 23 hours, 59 minutes, 59 seconds");
    assert_eq!(
        format_duration(u64::MAX),
        format!(
            "{} days, {} hours, {} minutes, {} seconds",
            u64::MAX / 86400,
            (u64::MAX % 86400) / 3600,
            (u64::MAX % 3600) / 60,
            u64::MAX % 60
        )
    );
}

#[test]
fn alert_texts() {
    let url = String::from("http://a.example");
    let err = String::from("connection refused");
    assert_eq!(recovery_message(&url), "Server http://a.example is back online!");
    assert_eq!(
        down_message(&url, &err, 3),
        "Server http://a.example is down! Error: connection refused\nFailed 3 consecutive times."
    );
    assert_eq!(notice_message(Notice::Silent, &url, &err, 3), None);
    assert_eq!(
        notice_message(Notice::Down, &url, &err, 12),
        Some(String::from(
            "Server http://a.example is down! Error: connection refused\nFailed 12 consecutive times."
        ))
    );
    assert_eq!(
        notice_message(Notice::Recovered, &url, &err, 3),
        Some(String::from("Server http://a.example is back online!"))
    );
}
