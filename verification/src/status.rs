//! The status line that is refreshed while the heads agree.

use vstd::prelude::*;
use vstd::string::*;

verus! {

/// The last second of the year 9999, in seconds since the Unix epoch: the
/// last time that `YYYY-MM-DD HH:MM:SS` can hold.
pub const LAST_FOUR_DIGIT_YEAR_SECOND: u64 = 253_402_300_799;

/// The UTC calendar form `YYYY-MM-DD HH:MM:SS` of the instant `secs` seconds
/// after the Unix epoch, as `chrono` writes it.
pub uninterp spec fn utc_date_time_text(secs: int) -> Seq<char>;

/// Calls `chrono::DateTime::from_timestamp` with no nanoseconds and, where
/// that gives an instant, `DateTime::format` with the pattern
/// `%Y-%m-%d %H:%M:%S`.
///
/// Trusted: the text is the calendar form of `secs`, a function of `secs`
/// alone (UTC, no locale); and `chrono` has an instant for every second from
/// the epoch to the end of the year 9999, which lies well inside the range of
/// years it can hold.
#[verifier::external_body]
fn chrono_utc_text(secs: i64) -> (text: Option<String>)
    ensures
        text matches Some(t) ==> t@ == utc_date_time_text(secs as int),
        0 <= secs <= LAST_FOUR_DIGIT_YEAR_SECOND ==> text is Some,
{
    match chrono::DateTime::from_timestamp(secs, 0) {
        Some(instant) => Some(instant.format("%Y-%m-%d %H:%M:%S").to_string()),
        None => None,
    }
}

/// Writes a time, given in seconds since the Unix epoch, as
/// `YYYY-MM-DD HH:MM:SS` in UTC. `None` exactly where the time lies beyond
/// the year 9999, whose years that form cannot hold.
pub fn format_time(time: u64) -> (text: Option<String>)
    ensures
        text is Some <==> time <= LAST_FOUR_DIGIT_YEAR_SECOND,
        text matches Some(t) ==> t@ == utc_date_time_text(time as int),
{
    if time > LAST_FOUR_DIGIT_YEAR_SECOND {
        None
    } else {
        chrono_utc_text(time as i64)
    }
}

/// The character of a decimal digit.
pub open spec fn digit_char(d: nat) -> char
    recommends
        d < 10,
{
    if d == 0 {
        '0'
    } else if d == 1 {
        '1'
    } else if d == 2 {
        '2'
    } else if d == 3 {
        '3'
    } else if d == 4 {
        '4'
    } else if d == 5 {
        '5'
    } else if d == 6 {
        '6'
    } else if d == 7 {
        '7'
    } else if d == 8 {
        '8'
    } else {
        '9'
    }
}

/// A number in decimal, without leading zeros.
pub open spec fn decimal_text(n: nat) -> Seq<char>
    decreases n,
{
    if n < 10 {
        seq![digit_char(n)]
    } else {
        decimal_text(n / 10).push(digit_char(n % 10))
    }
}

/// The one-character string of a decimal digit.
fn digit_str(d: u64) -> (s: &'static str)
    requires
        d < 10,
    ensures
        s@ == seq![digit_char(d as nat)],
{
    proof {
        reveal_strlit("0");
        reveal_strlit("1");
        reveal_strlit("2");
        reveal_strlit("3");
        reveal_strlit("4");
        reveal_strlit("5");
        reveal_strlit("6");
        reveal_strlit("7");
        reveal_strlit("8");
        reveal_strlit("9");
    }
    let s = if d == 0 {
        "0"
    } else if d == 1 {
        "1"
    } else if d == 2 {
        "2"
    } else if d == 3 {
        "3"
    } else if d == 4 {
        "4"
    } else if d == 5 {
        "5"
    } else if d == 6 {
        "6"
    } else if d == 7 {
        "7"
    } else if d == 8 {
        "8"
    } else {
        "9"
    };
    assert(s@ =~= seq![digit_char(d as nat)]);
    s
}

/// Writes a number in decimal.
pub fn decimal_string(n: u64) -> (s: String)
    ensures
        s@ == decimal_text(n as nat),
    decreases n,
{
    if n < 10 {
        String::from_str(digit_str(n))
    } else {
        let mut s = decimal_string(n / 10);
        s.append(digit_str(n % 10));
        assert(s@ =~= decimal_text(n as nat));
        s
    }
}

/// The status line for a last change written as `formatted` and `elapsed`
/// seconds gone by since. It starts with a carriage return, so that it
/// overwrites the line before it.
pub open spec fn status_text(formatted: Seq<char>, elapsed: nat) -> Seq<char> {
    "\rNo new changes since "@ + formatted + " UTC. Elapsed time: "@ + decimal_text(elapsed)
        + " seconds."@
}

/// Puts the status line together from the written time of the last change
/// and the seconds gone by since.
pub fn compose_status_line(formatted: &str, elapsed: u64) -> (line: String)
    ensures
        line@ == status_text(formatted@, elapsed as nat),
{
    let mut line = String::from_str("\rNo new changes since ");
    line.append(formatted);
    line.append(" UTC. Elapsed time: ");
    let count = decimal_string(elapsed);
    line.append(count.as_str());
    line.append(" seconds.");
    line
}

/// The status line for a last change at `since` (seconds since the Unix
/// epoch) and `elapsed` seconds gone by. `None` exactly where `since` lies
/// beyond the year 9999.
pub fn status_line(since: u64, elapsed: u64) -> (line: Option<String>)
    ensures
        line is Some <==> since <= LAST_FOUR_DIGIT_YEAR_SECOND,
        line matches Some(l) ==> l@ == status_text(
            utc_date_time_text(since as int),
            elapsed as nat,
        ),
{
    match format_time(since) {
        Some(formatted) => Some(compose_status_line(formatted.as_str(), elapsed)),
        None => None,
    }
}

} // verus!
