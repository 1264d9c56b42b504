//! Formatting of cells: shortening text, the colour of a status, and the
//! age of a timestamp.

use chrono::{TimeZone, Utc};
use vstd::prelude::*;
use vstd::string::*;
use vstd::utf8::{decode_utf8, encode_utf8, is_char_boundary};
use crate::text::{
    decimal, decimal_string, decimal_text, signed_decimal, signed_decimal_text, str_eq,
    strip_prefixes, strip_suffixes, trim_matches,
};

verus! {

/// Whether `s` can be shortened to `max_width` bytes: it is short enough
/// as it stands, or the cut, three bytes before `max_width`, falls between
/// two characters.
pub open spec fn can_truncate(s: Seq<char>, max_width: int) -> bool {
    encode_utf8(s).len() <= max_width || (max_width >= 3 && is_char_boundary(
        encode_utf8(s),
        max_width - 3,
    ))
}

/// `s` shortened to `max_width` bytes: `s` itself when it is short enough,
/// else its first `max_width - 3` bytes and three dots.
pub open spec fn truncated(s: Seq<char>, max_width: int) -> Seq<char> {
    if encode_utf8(s).len() <= max_width {
        s
    } else {
        decode_utf8(encode_utf8(s).subrange(0, max_width - 3)) + "..."@
    }
}

/// Decides whether `s` can be shortened to `max_width` bytes.
pub fn is_truncatable(s: &str, max_width: usize) -> (r: bool)
    ensures
        r == can_truncate(s@, max_width as int),
{
    s.as_bytes().len() <= max_width || (max_width >= 3 && s.is_char_boundary(max_width - 3))
}

/// Shortens `s` to at most `max_width` bytes, marking the cut with three
/// dots.
pub fn truncate(s: &str, max_width: usize) -> (r: String)
    requires
        can_truncate(s@, max_width as int),
    ensures
        r@ == truncated(s@, max_width as int),
{
    if s.as_bytes().len() <= max_width {
        s.to_owned()
    } else {
        let (head, _) = s.split_at(max_width - 3);
        proof {
            vstd::utf8::encode_utf8_decode_utf8(head@);
        }
        head.to_owned().concat("...")
    }
}

/// The colour in which a status is shown.
#[derive(Debug, Clone, Copy, PartialEq, Eq, Structural)]
pub enum StatusStyle {
    Green,
    Red,
    Blue,
    Yellow,
    DarkGray,
    Plain,
}

/// The status without the double quotes around it.
pub open spec fn bare_status(status: Seq<char>) -> Seq<char> {
    strip_suffixes(strip_prefixes(status, "\""@), "\""@)
}

/// The colour of a status.
pub open spec fn status_style(status: Seq<char>) -> StatusStyle {
    let bare = bare_status(status);
    if bare == "SUCCESS"@ {
        StatusStyle::Green
    } else if bare == "FAILURE"@ {
        StatusStyle::Red
    } else if bare == "STARTED"@ || bare == "STARTING"@ {
        StatusStyle::Blue
    } else if bare == "QUEUED"@ {
        StatusStyle::Yellow
    } else if bare == "CANCELED"@ {
        StatusStyle::DarkGray
    } else {
        StatusStyle::Plain
    }
}

/// The colour in which `status` is shown; double quotes around the status
/// are ignored.
pub fn get_status_style(status: &str) -> (r: StatusStyle)
    ensures
        r == status_style(status@),
{
    let bare = trim_matches(status, "\"");
    if str_eq(bare.as_str(), "SUCCESS") {
        StatusStyle::Green
    } else if str_eq(bare.as_str(), "FAILURE") {
        StatusStyle::Red
    } else if str_eq(bare.as_str(), "STARTED") || str_eq(bare.as_str(), "STARTING") {
        StatusStyle::Blue
    } else if str_eq(bare.as_str(), "QUEUED") {
        StatusStyle::Yellow
    } else if str_eq(bare.as_str(), "CANCELED") {
        StatusStyle::DarkGray
    } else {
        StatusStyle::Plain
    }
}

/// The first second of the calendar: the start of the year -262143.
pub const FIRST_INSTANT: i64 = -8_334_601_228_800;

/// The last second of the calendar: the end of the year 262142.
pub const LAST_INSTANT: i64 = 8_210_266_876_799;

/// The instant, in seconds since the epoch, that the calendar gives to a
/// timestamp: the timestamp itself where the calendar reaches it, the
/// epoch where it does not.
pub open spec fn utc_seconds(timestamp: i64) -> i64 {
    if FIRST_INSTANT <= timestamp <= LAST_INSTANT {
        timestamp
    } else {
        0
    }
}

/// The instant of a timestamp, written in UTC after a pattern of chrono's
/// `strftime` kind.
pub uninterp spec fn utc_formatted(timestamp: i64, pattern: Seq<char>) -> Seq<char>;

/// The pattern for date and time: year, month, day, hour, minute, second.
pub open spec fn date_time_pattern() -> Seq<char> {
    "%Y-%m-%d %H:%M:%S"@
}

/// The pattern for the time of day, marked as UTC.
pub open spec fn clock_pattern() -> Seq<char> {
    "%H:%M:%S UTC"@
}

/// The pattern for date and time with the name of the time zone.
pub open spec fn zoned_pattern() -> Seq<char> {
    "%Y-%m-%d %H:%M:%S %Z"@
}

/// Date and time of a timestamp in UTC.
pub open spec fn utc_date_time(timestamp: i64) -> Seq<char> {
    utc_formatted(timestamp, date_time_pattern())
}

/// The time of day of a timestamp in UTC, marked as UTC.
pub open spec fn utc_clock(timestamp: i64) -> Seq<char> {
    utc_formatted(timestamp, clock_pattern())
}

/// Builds the UTC instant of `timestamp` with chrono's
/// `TimeZone::timestamp_opt`, taking the default instant where the
/// timestamp is out of range, and reads its seconds back with
/// `DateTime::timestamp`. Trusted: the result is the timestamp itself
/// from the first second of chrono's least year to the last second of its
/// greatest year, and zero, the seconds of the default instant, outside.
#[verifier::external_body]
fn instant_seconds(timestamp: i64) -> (r: i64)
    ensures
        r == utc_seconds(timestamp),
{
    Utc.timestamp_opt(timestamp, 0).single().unwrap_or_default().timestamp()
}

/// Builds the same instant and writes it with chrono's `DateTime::format`.
/// Trusted: the text depends on the timestamp and the pattern alone. Only
/// the two patterns that the dashboard uses are let in, both of which
/// chrono accepts.
#[verifier::external_body]
fn format_utc(timestamp: i64, pattern: &str) -> (r: String)
    requires
        pattern@ == date_time_pattern() || pattern@ == clock_pattern(),
    ensures
        r@ == utc_formatted(timestamp, pattern@),
{
    Utc.timestamp_opt(timestamp, 0).single().unwrap_or_default().format(pattern).to_string()
}

/// Builds the same instant, moves it to chrono's `Local` zone, the time
/// zone of this machine, with `DateTime::with_timezone`, and writes it
/// with `DateTime::format`. Trusted, and nothing is claimed of the text:
/// it depends on the time zone of the machine. The clock is not read. Only
/// the pattern that the dashboard uses is let in.
#[verifier::external_body]
fn format_local(timestamp: i64, pattern: &str) -> (r: String)
    requires
        pattern@ == zoned_pattern(),
{
    Utc.timestamp_opt(timestamp, 0).single().unwrap_or_default().with_timezone(
        &chrono::Local,
    ).format(pattern).to_string()
}

/// How long ago something was that lies `elapsed` seconds back: in whole
/// days, hours or minutes if it is that long, else in seconds.
pub open spec fn age_text(elapsed: int) -> Seq<char> {
    if elapsed >= 86400 {
        decimal((elapsed / 86400) as nat) + " day(s) ago"@
    } else if elapsed >= 3600 {
        decimal((elapsed / 3600) as nat) + " hour(s) ago"@
    } else if elapsed >= 60 {
        decimal((elapsed / 60) as nat) + " minute(s) ago"@
    } else {
        signed_decimal(elapsed) + " second(s) ago"@
    }
}

/// A timestamp in full: the local date and time, and in brackets the time
/// of day in UTC and the age.
pub open spec fn full_instant_text(local: Seq<char>, clock: Seq<char>, elapsed: int) -> Seq<
    char,
> {
    local + " ("@ + clock + " - "@ + age_text(elapsed) + ")"@
}

/// Writes how long ago something was that lies `elapsed` seconds back.
pub fn format_age(elapsed: i128) -> (r: String)
    ensures
        r@ == age_text(elapsed as int),
{
    if elapsed >= 86400 {
        decimal_text((elapsed / 86400) as u128).concat(" day(s) ago")
    } else if elapsed >= 3600 {
        decimal_text((elapsed / 3600) as u128).concat(" hour(s) ago")
    } else if elapsed >= 60 {
        decimal_text((elapsed / 60) as u128).concat(" minute(s) ago")
    } else {
        signed_decimal_text(elapsed).concat(" second(s) ago")
    }
}

/// Writes an instant in full: `local` is its local date and time, `clock`
/// its time of day in UTC; `instant` and `now` are whole seconds since the
/// epoch.
pub fn format_full_instant(local: &str, clock: &str, instant: i64, now: i64) -> (r: String)
    ensures
        r@ == full_instant_text(local@, clock@, now - instant),
{
    let elapsed: i128 = now as i128 - instant as i128;
    local.to_owned().concat(" (").concat(clock).concat(" - ").concat(
        format_age(elapsed).as_str(),
    ).concat(")")
}

/// Writes a timestamp in full, as it is shown at the time `now`; both are
/// whole seconds since the epoch. A missing timestamp reads as not
/// started. The local date and time follow the time zone of the machine.
pub fn format_full_timestamp(timestamp: Option<i64>, now: i64) -> (r: String)
    ensures
        match timestamp {
            None => r@ == "Not started"@,
            Some(t) => exists|local: Seq<char>|
                r@ == #[trigger] full_instant_text(local, utc_clock(t), now - utc_seconds(t)),
        },
{
    match timestamp {
        None => String::from_str("Not started"),
        Some(t) => {
            let local = format_local(t, "%Y-%m-%d %H:%M:%S %Z");
            let clock = format_utc(t, "%H:%M:%S UTC");
            let r = format_full_instant(local.as_str(), clock.as_str(), instant_seconds(t), now);
            assert(r@ == full_instant_text(local@, utc_clock(t), now - utc_seconds(t)));
            r
        },
    }
}

/// How an instant is shown when `elapsed` seconds have passed since: as
/// its age in hours, minutes or seconds when it lies within the last day,
/// and as `date` otherwise.
pub open spec fn age_or_date(elapsed: int, date: Seq<char>) -> Seq<char> {
    if 0 <= elapsed < 86400 {
        if elapsed >= 3600 {
            decimal((elapsed / 3600) as nat) + " hour(s) ago"@
        } else if elapsed >= 60 {
            decimal((elapsed / 60) as nat) + " minute(s) ago"@
        } else if elapsed >= 1 {
            decimal(elapsed as nat) + " second(s) ago"@
        } else {
            decimal(1) + " second(s) ago"@
        }
    } else {
        date
    }
}

/// How the start of a run is shown at the time `now`: a dash when it has
/// not started; its age when it started within the last day; its date and
/// time otherwise.
pub open spec fn timestamp_text(timestamp: Option<i64>, now: i64) -> Seq<char> {
    match timestamp {
        None => "-"@,
        Some(t) => age_or_date(now - utc_seconds(t), utc_date_time(t)),
    }
}

/// Writes the instant `instant`, whose date and time are `date`, as it is
/// shown at the time `now`; both are whole seconds since the epoch.
pub fn format_instant(instant: i64, date: &str, now: i64) -> (r: String)
    ensures
        r@ == age_or_date(now - instant, date@),
{
    let elapsed: i128 = now as i128 - instant as i128;
    if 0 <= elapsed && elapsed < 86400 {
        if elapsed >= 3600 {
            decimal_string((elapsed / 3600) as usize).concat(" hour(s) ago")
        } else if elapsed >= 60 {
            decimal_string((elapsed / 60) as usize).concat(" minute(s) ago")
        } else if elapsed >= 1 {
            decimal_string(elapsed as usize).concat(" second(s) ago")
        } else {
            decimal_string(1).concat(" second(s) ago")
        }
    } else {
        date.to_owned()
    }
}

/// Writes a timestamp as it is shown at the time `now`; both are whole
/// seconds since the epoch.
pub fn format_timestamp(timestamp: Option<i64>, now: i64) -> (r: String)
    ensures
        r@ == timestamp_text(timestamp, now),
{
    match timestamp {
        None => String::from_str("-"),
        Some(t) => {
            let date = format_utc(t, "%Y-%m-%d %H:%M:%S");
            format_instant(instant_seconds(t), date.as_str(), now)
        },
    }
}

} // verus!
