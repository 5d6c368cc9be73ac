//! Time stamps of the service, shown as dates, as local times, or as the
//! time that has passed since.

use vstd::prelude::*;
use vstd::string::StringExecFns;
use std::fmt::Write;
use crate::clock::unix_now;
use crate::text::{before_first, decimal, push_decimal, text_before_first};

verus! {

/// The format of a day, in chrono's notation.
pub const DAY_FORMAT: &'static str = "%Y-%m-%d";

/// The format of a day with hour and minute, in chrono's notation.
pub const MINUTE_FORMAT: &'static str = "%Y-%m-%d %H:%M";

/// A time stamp as plain values.
pub struct Stamp {
    /// The time in UTC, in the format asked for.
    pub utc: String,
    /// The seconds from the Unix epoch.
    pub seconds: i64,
}

/// What the chrono crate makes of a text that it accepts as a date and time
/// in UTC: the time in UTC in the format `format`, and the seconds from the
/// Unix epoch; `None` for a text that it refuses, and where it refuses the
/// format.
pub uninterp spec fn utc_stamp(iso: Seq<char>, format: Seq<char>) -> Option<(Seq<char>, i64)>;

/// A time stamp as character sequence and number.
pub open spec fn stamp_view(stamp: Option<Stamp>) -> Option<(Seq<char>, i64)> {
    match stamp {
        Some(s) => Some((s.utc@, s.seconds)),
        None => None,
    }
}

/// The UTC calendar day of a time stamp, as `YYYY-MM-DD`; `None` for a text
/// that is none.
pub open spec fn utc_day_text(iso: Seq<char>) -> Option<Seq<char>> {
    match utc_stamp(iso, DAY_FORMAT@) {
        Some(s) => Some(s.0),
        None => None,
    }
}

/// The seconds from the Unix epoch to a time stamp; `None` for a text that
/// is none.
pub open spec fn utc_seconds_of(iso: Seq<char>) -> Option<i64> {
    match utc_stamp(iso, DAY_FORMAT@) {
        Some(s) => Some(s.1),
        None => None,
    }
}

/// `DateTime::<Utc>::from_str` of chrono, with `DateTime::format` and
/// `DateTime::timestamp` of its result: the time in UTC and the seconds are
/// what chrono makes of the two texts, a function of them alone. `None`
/// where chrono refuses the time stamp or the format. The machine's time
/// zone is not looked at.
#[verifier::external_body]
fn read_stamp(iso: &str, format: &str) -> (r: Option<Stamp>)
    ensures
        stamp_view(r) == utc_stamp(iso@, format@),
{
    let dt = iso.parse::<chrono::DateTime<chrono::Utc>>().ok()?;
    let mut utc = String::new();
    write!(utc, "{}", dt.format(format)).ok()?;
    Some(Stamp { utc, seconds: dt.timestamp() })
}

/// What is shown for a time stamp that is no date and time: the text before
/// its first `T`.
pub open spec fn raw_day(iso: Seq<char>) -> Seq<char> {
    before_first(iso, 'T')
}

/// The day of a time stamp: its UTC day, or the raw day where it is no date
/// and time.
pub open spec fn day_text(iso: Seq<char>) -> Seq<char> {
    match utc_day_text(iso) {
        Some(day) => day,
        None => raw_day(iso),
    }
}

/// A count with its unit, in the plural unless the count is one, and `ago`.
pub open spec fn ago(count: nat, unit: Seq<char>) -> Seq<char> {
    decimal(count) + " "@ + unit + (if count == 1 {
        Seq::empty()
    } else {
        "s"@
    }) + " ago"@
}

/// What is shown for a time `secs` seconds back: `just now` below a minute
/// (and for a time ahead), then whole minutes below an hour, whole hours
/// below a day, whole days below thirty days, and from there on the day itself.
pub open spec fn elapsed_text(secs: int, day: Seq<char>) -> Seq<char> {
    if secs < 60 {
        "just now"@
    } else if secs / 60 < 60 {
        ago((secs / 60) as nat, "min"@)
    } else if secs / 3600 < 24 {
        ago((secs / 3600) as nat, "hour"@)
    } else if secs / 86400 < 30 {
        ago((secs / 86400) as nat, "day"@)
    } else {
        day
    }
}

/// What is shown at `now` for a time stamp, as the time passed since.
pub open spec fn relative_text(iso: Seq<char>, now: u64) -> Seq<char> {
    match utc_seconds_of(iso) {
        Some(then) => elapsed_text(now - then, day_text(iso)),
        None => raw_day(iso),
    }
}

/// Format a date string as date only
pub fn format_date_only(iso: &str) -> (r: String)
    ensures
        r@ == day_text(iso@),
{
    match read_stamp(iso, DAY_FORMAT) {
        Some(stamp) => stamp.utc,
        None => text_before_first(iso, 'T'),
    }
}

/// What is shown for a time stamp with day and minute: for a text that is
/// a date and time, the local form where the caller has one, else the form
/// in UTC; for any other text its raw day.
pub open spec fn minute_text(iso: Seq<char>, local: Option<Seq<char>>) -> Seq<char> {
    match utc_stamp(iso, MINUTE_FORMAT@) {
        Some(stamp) => match local {
            Some(text) => text,
            None => stamp.0,
        },
        None => raw_day(iso),
    }
}

/// Format a date string with day and minute. `local` is the time stamp in
/// the machine's time zone, in `MINUTE_FORMAT`, where the caller could
/// work it out: it is shown for every text that is a date and time. Without
/// it the time in UTC is shown. A text that is no date and time is shown by
/// its raw day.
pub fn format_date(iso: &str, local: Option<String>) -> (r: String)
    ensures
        r@ == minute_text(
            iso@,
            match local {
                Some(text) => Some(text@),
                None => None,
            },
        ),
{
    match read_stamp(iso, MINUTE_FORMAT) {
        Some(stamp) => match local {
            Some(text) => text,
            None => stamp.utc,
        },
        None => text_before_first(iso, 'T'),
    }
}

fn ago_text(count: u64, unit: &str) -> (r: String)
    ensures
        r@ == ago(count as nat, unit@),
{
    let mut r = String::new();
    push_decimal(&mut r, count);
    r.append(" ");
    r.append(unit);
    if count != 1 {
        r.append("s");
    }
    r.append(" ago");
    r
}

/// What is shown for a time `secs` seconds back, `day` being the day to
/// show from thirty days on.
pub fn elapsed_label(secs: i128, day: &str) -> (r: String)
    ensures
        r@ == elapsed_text(secs as int, day@),
{
    if secs < 60 {
        String::from_str("just now")
    } else if secs / 60 < 60 {
        ago_text((secs / 60) as u64, "min")
    } else if secs / 3600 < 24 {
        ago_text((secs / 3600) as u64, "hour")
    } else if secs / 86400 < 30 {
        ago_text((secs / 86400) as u64, "day")
    } else {
        String::from_str(day)
    }
}

/// Format a time stamp as the time that has passed since, at `now` seconds
/// from the Unix epoch.
pub fn format_relative_at(iso: &str, now: u64) -> (r: String)
    ensures
        r@ == relative_text(iso@, now),
{
    match read_stamp(iso, DAY_FORMAT) {
        Some(stamp) => {
            let secs: i128 = now as i128 - stamp.seconds as i128;
            elapsed_label(secs, stamp.utc.as_str())
        },
        None => text_before_first(iso, 'T'),
    }
}

/// Format a relative time (e.g., "2 days ago")
pub fn format_relative(iso: &str) -> (r: String)
    ensures
        exists|now: u64| r@ == relative_text(iso@, now),
        utc_seconds_of(iso@) is None ==> r@ == raw_day(iso@),
{
    let now = unix_now();
    let r = format_relative_at(iso, now);
    assert(r@ == relative_text(iso@, now));
    r
}

} // verus!
