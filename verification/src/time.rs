//! Times of messages.

use vstd::prelude::*;

use crate::text::copy_text;

verus! {

/// The time that the chrono crate reads from a text by a pattern, in seconds since 1970.
pub uninterp spec fn time_read(text: Seq<char>, pattern: Seq<char>) -> Option<int>;

/// How the chrono crate writes a time, given in seconds since 1970, by a pattern.
pub uninterp spec fn time_written(seconds: int, pattern: Seq<char>) -> Option<Seq<char>>;

/// The patterns that times are written by.
pub open spec fn is_clock_pattern(p: Seq<char>) -> bool {
    p == "%I:%M %p"@ || p == "%H:%M"@ || p == "%d %b %H:%M"@
}

/// `chrono::NaiveDateTime::parse_from_str`, as the seconds since 1970 that `and_utc` and `timestamp`
/// give: none where the text does not follow the pattern. It depends on the two texts alone.
#[verifier::external_body]
pub(crate) fn read_time(text: &str, pattern: &str) -> (r: Option<i64>)
    ensures
        match r {
            Some(t) => time_read(text@, pattern@) == Some(t as int),
            None => time_read(text@, pattern@) is None,
        },
{
    chrono::NaiveDateTime::parse_from_str(text, pattern).ok().map(|t| t.and_utc().timestamp())
}

/// `chrono::DateTime::from_timestamp` and `format`, in UTC: none where the time is out of chrono's
/// range. It depends on the arguments alone. Only patterns that chrono knows are admitted.
#[verifier::external_body]
pub(crate) fn write_time(seconds: i64, pattern: &str) -> (r: Option<String>)
    requires
        is_clock_pattern(pattern@),
    ensures
        match r {
            Some(s) => time_written(seconds as int, pattern@) == Some(s@),
            None => time_written(seconds as int, pattern@) is None,
        },
{
    chrono::DateTime::from_timestamp(seconds, 0).map(|t| t.format(pattern).to_string())
}

/// The time of a message in the chat client: ten hours ahead of the server's, on a clock of twelve
/// hours. `read` is the time as it was read, and `written` how the later time is written.
pub open spec fn chat_time(
    text: Seq<char>,
    read: Option<int>,
    written: spec_fn(int) -> Option<Seq<char>>,
) -> Seq<char> {
    match read {
        Some(t) => if t + 36_000 <= i64::MAX {
            match written(t + 36_000) {
                Some(s) => s,
                None => text,
            }
        } else {
            text
        },
        None => text,
    }
}

/// How the time of a message is shown.
pub open spec fn time_label(ts: Seq<char>) -> Seq<char> {
    chat_time(ts, time_read(ts, "%Y-%m-%dT%H:%M:%S"@), |t: int| time_written(t, "%I:%M %p"@))
}

/// How the time of a message is shown; a text that is no time is shown as it is.
pub fn format_local_time(ts: &str) -> (r: String)
    ensures
        r@ == time_label(ts@),
{
    match read_time(ts, "%Y-%m-%dT%H:%M:%S") {
        Some(t) => match t.checked_add(36_000) {
            Some(later) => match write_time(later, "%I:%M %p") {
                Some(s) => s,
                None => copy_text(ts),
            },
            None => copy_text(ts),
        },
        None => copy_text(ts),
    }
}

/// The day of a time, counted from 1970.
pub open spec fn day_of(seconds: int) -> int {
    seconds / 86_400
}

fn day_number(seconds: i64) -> (d: i64)
    ensures
        d == day_of(seconds as int),
{
    if seconds >= 0 {
        seconds / 86_400
    } else {
        let back: i64 = -(seconds + 1);
        let days: i64 = back / 86_400;
        proof {
            assert(seconds as int == -(back as int) - 1);
            assert((-(back as int) - 1) / 86_400 == -(back as int / 86_400) - 1) by (nonlinear_arith)
                requires
                    back >= 0,
            ;
        }
        -days - 1
    }
}

/// The time that was read by the first of two patterns that fits.
pub open spec fn server_time(text: Seq<char>) -> Option<int> {
    match time_read(text, "%Y-%m-%dT%H:%M:%S"@) {
        Some(t) => Some(t),
        None => time_read(text, "%Y-%m-%d %H:%M:%S"@),
    }
}

/// The pattern by which a time is shown on a day: the date is left out on the day itself.
pub open spec fn desktop_pattern(local: int, today: int) -> Seq<char> {
    if day_of(local) == today {
        "%H:%M"@
    } else {
        "%d %b %H:%M"@
    }
}

/// Writes a local time; `today` is the day that it is.
pub fn show_time(local: i64, today: i64) -> (r: Option<String>)
    ensures
        match r {
            Some(s) => time_written(local as int, desktop_pattern(local as int, today as int))
                == Some(s@),
            None => time_written(local as int, desktop_pattern(local as int, today as int)) is None,
        },
{
    if day_number(local) == today {
        write_time(local, "%H:%M")
    } else {
        write_time(local, "%d %b %H:%M")
    }
}

/// How the time of a message is shown in the desktop client. `offset` is how far the local time is
/// ahead of that of the server, in seconds, and `today` the local day.
pub fn format_desktop_time(created_at: &str, offset: i32, today: i64) -> (r: String)
    ensures
        match server_time(created_at@) {
            None => r@ == created_at@,
            Some(t) => if i64::MIN <= t + offset <= i64::MAX {
                match time_written(t + offset, desktop_pattern(t + offset, today as int)) {
                    Some(s) => r@ == s,
                    None => r@ == created_at@,
                }
            } else {
                r@ == created_at@
            },
        },
{
    let read = match read_time(created_at, "%Y-%m-%dT%H:%M:%S") {
        Some(t) => Some(t),
        None => read_time(created_at, "%Y-%m-%d %H:%M:%S"),
    };
    match read {
        Some(t) => match t.checked_add(offset as i64) {
            Some(local) => match show_time(local, today) {
                Some(s) => s,
                None => copy_text(created_at),
            },
            None => copy_text(created_at),
        },
        None => copy_text(created_at),
    }
}

} // verus!
