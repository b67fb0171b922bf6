//! Decimal numbers, durations and the text of the alerts.

use crate::alert::Notice;
use vstd::prelude::*;
use vstd::string::*;

verus! {

/// The character of a decimal digit.
pub open spec fn digit(d: nat) -> char {
    if d == 0 {
        '0'
    } else if d == 1 {
        '1'
    } else if d == 2 {
        '2'
    } else if d == 3 {
        '3'
    } else if d == 4 {
        '4'
    } else if d == 5 {
        '5'
    } else if d == 6 {
        '6'
    } else if d == 7 {
        '7'
    } else if d == 8 {
        '8'
    } else {
        '9'
    }
}

/// A number in decimal, without sign or leading zeros.
pub open spec fn decimal_text(n: nat) -> Seq<char>
    decreases n,
{
    if n < 10 {
        seq![digit(n)]
    } else {
        decimal_text(n / 10).push(digit(n % 10))
    }
}

/// A number of seconds as days, hours, minutes and seconds.
pub open spec fn duration_text(secs: nat) -> Seq<char> {
    decimal_text(secs / 86400) + " days, "@ + decimal_text((secs % 86400) / 3600) + " hours, "@
        + decimal_text((secs % 3600) / 60) + " minutes, "@ + decimal_text(secs % 60)
        + " seconds"@
}

/// The alert for a server that answers again.
pub open spec fn recovery_text(url: Seq<char>) -> Seq<char> {
    "Server "@ + url + " is back online!"@
}

/// The alert for a server whose run of failures has reached the threshold.
pub open spec fn down_text(url: Seq<char>, error: Seq<char>, threshold: nat) -> Seq<char> {
    "Server "@ + url + " is down! Error: "@ + error + "\nFailed "@ + decimal_text(threshold)
        + " consecutive times."@
}

/// The text that a notice is sent with; a silent one has none.
pub open spec fn notice_text(
    notice: Notice,
    url: Seq<char>,
    error: Seq<char>,
    threshold: nat,
) -> Option<Seq<char>> {
    match notice {
        Notice::Silent => None,
        Notice::Down => Some(down_text(url, error, threshold)),
        Notice::Recovered => Some(recovery_text(url)),
    }
}

fn digit_str(d: u64) -> (s: &'static str)
    requires
        d < 10,
    ensures
        s@ == seq![digit(d as nat)],
{
    proof {
        reveal_strlit("0");
        reveal_strlit("1");
        reveal_strlit("2");
        reveal_strlit("3");
        reveal_strlit("4");
        reveal_strlit("5");
        reveal_strlit("6");
        reveal_strlit("7");
        reveal_strlit("8");
        reveal_strlit("9");
    }
    let s = if d == 0 {
        "0"
    } else if d == 1 {
        "1"
    } else if d == 2 {
        "2"
    } else if d == 3 {
        "3"
    } else if d == 4 {
        "4"
    } else if d == 5 {
        "5"
    } else if d == 6 {
        "6"
    } else if d == 7 {
        "7"
    } else if d == 8 {
        "8"
    } else {
        "9"
    };
    assert(s@ =~= seq![digit(d as nat)]);
    s
}

/// Writes a number in decimal.
pub fn decimal(n: u64) -> (s: String)
    ensures
        s@ == decimal_text(n as nat),
    decreases n,
{
    if n < 10 {
        String::from_str(digit_str(n))
    } else {
        let mut s = decimal(n / 10);
        s.append(digit_str(n % 10));
        assert(s@ =~= decimal_text((n / 10) as nat).push(digit((n % 10) as nat)));
        s
    }
}

/// Writes a number of seconds as days, hours, minutes and seconds.
pub fn format_duration(secs: u64) -> (s: String)
    ensures
        s@ == duration_text(secs as nat),
{
    let mut s = decimal(secs / 86400);
    s.append(" days, ");
    s.append(decimal((secs % 86400) / 3600).as_str());
    s.append(" hours, ");
    s.append(decimal((secs % 3600) / 60).as_str());
    s.append(" minutes, ");
    s.append(decimal(secs % 60).as_str());
    s.append(" seconds");
    s
}

/// Writes the alert for a server that answers again.
pub fn recovery_message(url: &String) -> (s: String)
    ensures
        s@ == recovery_text(url@),
{
    let mut s = String::from_str("Server ");
    s.append(url.as_str());
    s.append(" is back online!");
    s
}

/// Writes the alert for a server that is down. `error` is what the failed
/// check reported. The count in the text is the threshold, which the run of
/// failures equals at the moment this alert is due.
pub fn down_message(url: &String, error: &String, threshold: u32) -> (s: String)
    ensures
        s@ == down_text(url@, error@, threshold as nat),
{
    let mut s = String::from_str("Server ");
    s.append(url.as_str());
    s.append(" is down! Error: ");
    s.append(error.as_str());
    s.append("\nFailed ");
    s.append(decimal(threshold as u64).as_str());
    s.append(" consecutive times.");
    s
}

/// The text to send for a notice, if it is to be sent at all.
pub fn notice_message(notice: Notice, url: &String, error: &String, threshold: u32) -> (r: Option<
    String,
>)
    ensures
        match r {
            Some(s) => notice_text(notice, url@, error@, threshold as nat) == Some(s@),
            None => notice_text(notice, url@, error@, threshold as nat).is_none(),
        },
{
    match notice {
        Notice::Silent => None,
        Notice::Down => Some(down_message(url, error, threshold)),
        Notice::Recovered => Some(recovery_message(url)),
    }
}

} // verus!
