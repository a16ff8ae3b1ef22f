//! The wording of the notices that a session puts up.

use vstd::prelude::*;
use vstd::string::*;
use std::fmt::Write;

verus! {

/// The character of a decimal digit.
pub open spec fn digit_char(digit: nat) -> char {
    if digit == 0 {
        '0'
    } else if digit == 1 {
        '1'
    } else if digit == 2 {
        '2'
    } else if digit == 3 {
        '3'
    } else if digit == 4 {
        '4'
    } else if digit == 5 {
        '5'
    } else if digit == 6 {
        '6'
    } else if digit == 7 {
        '7'
    } else if digit == 8 {
        '8'
    } else {
        '9'
    }
}

/// A number written in decimal digits, without leading zeros.
pub open spec fn decimal_text(n: nat) -> Seq<char>
    decreases n,
{
    if n < 10 {
        seq![digit_char(n)]
    } else {
        decimal_text(n / 10).push(digit_char(n % 10))
    }
}

fn digit_text(digit: usize) -> (text: &'static str)
    requires
        digit < 10,
    ensures
        text@ == seq![digit_char(digit as nat)],
{
    proof {
        reveal_strlit("0");
        reveal_strlit("1");
        reveal_strlit("2");
        reveal_strlit("3");
        reveal_strlit("4");
        reveal_strlit("5");
        reveal_strlit("6");
        reveal_strlit("7");
        reveal_strlit("8");
        reveal_strlit("9");
    }
    let text = if digit == 0 {
        "0"
    } else if digit == 1 {
        "1"
    } else if digit == 2 {
        "2"
    } else if digit == 3 {
        "3"
    } else if digit == 4 {
        "4"
    } else if digit == 5 {
        "5"
    } else if digit == 6 {
        "6"
    } else if digit == 7 {
        "7"
    } else if digit == 8 {
        "8"
    } else {
        "9"
    };
    assert(text@ =~= seq![digit_char(digit as nat)]);
    text
}

/// Writes a number in decimal digits.
pub fn decimal(n: usize) -> (text: String)
    ensures
        text@ == decimal_text(n as nat),
    decreases n,
{
    if n < 10 {
        digit_text(n).to_owned()
    } else {
        let mut text = decimal(n / 10);
        text.append(digit_text(n % 10));
        text
    }
}

/// The greatest number of seconds after the Unix epoch that a date is
/// looked for.
pub const LAST_SECOND: u64 = 0x7fff_ffff_ffff_ffff;

/// The moment `timestamp` seconds after the Unix epoch, in UTC, written
/// after the given pattern of `strftime` items, for a `timestamp` of at most
/// [`LAST_SECOND`]. There is no text for a moment that lies beyond the dates
/// that can be written, nor for a pattern that cannot be followed.
pub uninterp spec fn utc_text(timestamp: u64, pattern: Seq<char>) -> Option<Seq<char>>;

/// Turns a Unix timestamp into a date and time with chrono's
/// `TimeZone::timestamp_opt` for `Utc`, and writes it with
/// `DateTime::format` after `pattern`. What comes out depends on the number
/// and the pattern alone; the contract gives it its name and says nothing
/// more of it.
#[verifier::external_body]
fn utc_written(timestamp: u64, pattern: &str) -> (text: Option<String>)
    requires
        timestamp <= LAST_SECOND,
    ensures
        text.deep_view() == utc_text(timestamp, pattern@),
{
    let moment = chrono::TimeZone::timestamp_opt(&chrono::Utc, timestamp as i64, 0).single()?;
    let mut text = String::new();
    match write!(text, "{}", moment.format(pattern)) {
        Ok(()) => Some(text),
        Err(_) => None,
    }
}

/// The pattern after which dates and times are written: year, month and
/// day with hyphens between, a space, and hour, minute and second with
/// colons between.
pub open spec fn date_time_pattern() -> Seq<char> {
    "%Y-%m-%d %H:%M:%S"@
}

/// The date and time, in UTC, of the moment `timestamp` seconds after the
/// Unix epoch, where there is one: none for a timestamp beyond
/// [`LAST_SECOND`], nor for one whose date cannot be written.
pub open spec fn date_time_text(timestamp: u64) -> Option<Seq<char>> {
    if timestamp <= LAST_SECOND {
        utc_text(timestamp, date_time_pattern())
    } else {
        None
    }
}

/// The date and time of a timestamp in UTC, where it can be written.
pub fn date_time(timestamp: u64) -> (text: Option<String>)
    ensures
        text.deep_view() == date_time_text(timestamp),
{
    if timestamp > LAST_SECOND {
        None
    } else {
        utc_written(timestamp, "%Y-%m-%d %H:%M:%S")
    }
}

/// The notice that an entry of the log is on display, given the entry's
/// number and the date and time at which it was logged.
pub open spec fn history_notice_text(entry: nat, date_time: Seq<char>) -> Seq<char> {
    "Loaded history entry #"@ + decimal_text(entry) + "\nTimestamp: "@ + date_time
}

/// Words the notice that an entry of the log is on display, from the
/// entry's number and the date and time at which it was logged.
pub fn history_notice_with(entry: usize, date_time: &str) -> (notice: String)
    ensures
        notice@ == history_notice_text(entry as nat, date_time@),
{
    let mut notice = "Loaded history entry #".to_owned();
    notice.append(decimal(entry).as_str());
    notice.append("\nTimestamp: ");
    notice.append(date_time);
    notice
}

/// Words the notice that an entry of the log is on display, from the
/// entry's number and the timestamp at which it was logged. There is no
/// notice where the timestamp's date cannot be written.
pub fn history_notice(entry: usize, timestamp: u64) -> (notice: Option<String>)
    ensures
        notice.deep_view() == match date_time_text(timestamp) {
            Some(date_time) => Some(history_notice_text(entry as nat, date_time)),
            None => None,
        },
{
    match date_time(timestamp) {
        Some(date_time) => Some(history_notice_with(entry, date_time.as_str())),
        None => None,
    }
}

/// The notice that the build mode has changed.
pub open spec fn build_mode_notice_text(release: bool) -> Seq<char> {
    "Build mode changed to: "@ + if release {
        "RELEASE"@
    } else {
        "DEBUG"@
    }
}

/// Words the notice that the build mode has changed.
pub fn build_mode_notice(release: bool) -> (notice: String)
    ensures
        notice@ == build_mode_notice_text(release),
{
    let mut notice = "Build mode changed to: ".to_owned();
    notice.append(
        if release {
            "RELEASE"
        } else {
            "DEBUG"
        },
    );
    notice
}

/// The notice that a run could not be completed, with the reason.
pub open spec fn failure_notice_text(release: bool, reason: Seq<char>) -> Seq<char> {
    (if release {
        "Error running release tests:\n"@
    } else {
        "Error running tests:\n"@
    }) + reason
}

/// Words the notice that a run could not be completed. `release` says
/// whether the run was asked for as a release run.
pub fn failure_notice(release: bool, reason: &str) -> (notice: String)
    ensures
        notice@ == failure_notice_text(release, reason@),
{
    let mut notice = if release {
        "Error running release tests:\n".to_owned()
    } else {
        "Error running tests:\n".to_owned()
    };
    notice.append(reason);
    notice
}

} // verus!
