//! Times of recorded events: how long a replay waits between two events, and
//! whether a custom field is due for an update.

use vstd::prelude::*;
use vstd::string::StrSliceExecFns;

verus! {

/// The Unix time, in seconds, of an RFC 3339 date and time, or `None` when the
/// text is not one (as chrono reads it).
pub uninterp spec fn rfc3339_timestamp(text: Seq<char>) -> Option<i64>;

/// Calls `chrono::DateTime::parse_from_rfc3339` (chrono 0.4) and, on success,
/// `DateTime::timestamp` on the result. The contract claims that the result
/// depends on the text alone: chrono reads the date, time and offset written
/// in it, and nothing else.
#[verifier::external_body]
pub(crate) fn parse_rfc3339_seconds(text: &str) -> (seconds: Option<i64>)
    ensures
        seconds == rfc3339_timestamp(text@),
{
    match chrono::DateTime::parse_from_rfc3339(text) {
        Ok(date_time) => Some(date_time.timestamp()),
        Err(_) => None,
    }
}

/// The seconds from `now` (a Unix time) to the date and time a text gives;
/// `None` when there is no text or it is not an RFC 3339 date and time.
pub fn offset_from_now(text: Option<&str>, now: i64) -> (offset: Option<i128>)
    ensures
        offset == match text {
            None => None,
            Some(t) => match rfc3339_timestamp(t@) {
                Some(x) => Some((x - now) as i128),
                None => None::<i128>,
            },
        },
{
    match text {
        None => None,
        Some(t) => match parse_rfc3339_seconds(t) {
            Some(x) => Some((x as i128) - (now as i128)),
            None => None,
        },
    }
}

/// The whole seconds from `previous` to `current`, none when `current` is not
/// later.
pub open spec fn seconds_from(previous: int, current: int) -> int {
    if current > previous {
        current - previous
    } else {
        0
    }
}

/// The whole seconds from `previous` to `current`, none when `current` is not
/// later.
pub fn seconds_between(previous: i64, current: i64) -> (seconds: u64)
    ensures
        seconds == seconds_from(previous as int, current as int),
{
    if current > previous {
        ((current as i128) - (previous as i128)) as u64
    } else {
        0
    }
}

/// How many seconds a replay waits before it posts the event stamped
/// `current`, after the event stamped `previous`; `None` when either stamp is
/// not an RFC 3339 date and time.
pub fn replay_delay(previous: &str, current: &str) -> (seconds: Option<u64>)
    ensures
        match (rfc3339_timestamp(previous@), rfc3339_timestamp(current@)) {
            (Some(p), Some(c)) => seconds == Some(seconds_from(p as int, c as int) as u64),
            _ => seconds is None,
        },
{
    let p = parse_rfc3339_seconds(previous);
    let c = parse_rfc3339_seconds(current);
    match (p, c) {
        (Some(p), Some(c)) => Some(seconds_between(p, c)),
        _ => None,
    }
}

/// Replaying events in chronological order keeps their timing: the waits
/// before two successive events add up to the time between the first and
/// the last.
pub proof fn law_waits_add_up(a: int, b: int, c: int)
    requires
        a <= b <= c,
    ensures
        seconds_from(a, b) + seconds_from(b, c) == seconds_from(a, c),
{
}

/// An event stamped no later than the previous one is posted without waiting.
pub proof fn law_no_wait_backwards(a: int, b: int)
    requires
        b <= a,
    ensures
        seconds_from(a, b) == 0,
{
}

/// The stamp of a recorded event: its payload's `time`, or else its
/// `received_at`.
pub fn event_stamp(time: Option<String>, received_at: Option<String>) -> (stamp: Option<String>)
    ensures
        stamp == match time {
            Some(t) => Some(t),
            None => received_at,
        },
{
    match time {
        Some(t) => Some(t),
        None => received_at,
    }
}

/// The nanoseconds of a duration written for people (`15s`, `2min 30s`, ...),
/// or `None` when the text is not one (as humantime reads it).
pub uninterp spec fn humantime_nanos(text: Seq<char>) -> Option<u128>;

/// How many decimal digits a text holds.
pub open spec fn digit_count(text: Seq<char>) -> nat
    decreases text.len(),
{
    if text.len() == 0 {
        0
    } else {
        digit_count(text.drop_last()) + if '0' <= text.last() && text.last() <= '9' {
            1nat
        } else {
            0nat
        }
    }
}

/// The most digits a period may hold. With at most 11 digits, the numbers of
/// a period add up to less than 10^11, so no period reaches a total of 2^64
/// seconds even in years (31 557 600 seconds each): humantime's sum of the
/// parts can then not overflow inside `Duration::new`, which would panic.
pub const PERIOD_DIGITS: usize = 11;

/// Whether a period holds at most `PERIOD_DIGITS` digits.
pub fn period_bounded(text: &str) -> (bounded: bool)
    ensures
        bounded == (digit_count(text@) <= PERIOD_DIGITS),
{
    let n = text.unicode_len();
    let mut count: usize = 0;
    let mut i: usize = 0;
    while i < n
        invariant
            n == text@.len(),
            i <= n,
            count == digit_count(text@.subrange(0, i as int)),
            count <= i,
        decreases n - i,
    {
        let c = text.get_char(i);
        assert(text@.subrange(0, i + 1 as int).drop_last() =~= text@.subrange(0, i as int));
        if '0' <= c && c <= '9' {
            count = count + 1;
        }
        i = i + 1;
    }
    assert(text@.subrange(0, n as int) =~= text@);
    count <= PERIOD_DIGITS
}

/// Calls `humantime::parse_duration` (humantime 2) and, on success,
/// `Duration::as_nanos` on the result. The contract claims that the result
/// depends on the text alone. The crate panics when the parts of a text add
/// up to 2^64 seconds with a carry from the nanoseconds; a text of at most
/// `PERIOD_DIGITS` digits cannot come near that total, which is what the
/// `requires` asks.
#[verifier::external_body]
pub(crate) fn parse_duration_nanos(text: &str) -> (nanos: Option<u128>)
    requires
        digit_count(text@) <= PERIOD_DIGITS,
    ensures
        nanos == humantime_nanos(text@),
{
    match humantime::parse_duration(text) {
        Ok(duration) => Some(duration.as_nanos()),
        Err(_) => None,
    }
}

/// Whether a custom field is to be updated.
pub enum Due {
    /// At least one period has passed since its last update.
    Yes,
    /// Less than one period has passed.
    No,
    /// Its period is not a duration.
    BadPeriod,
}

/// Whether a custom field of period `period` is due, `elapsed` nanoseconds
/// after its last update.
pub fn field_due(elapsed: u128, period: &str) -> (due: Due)
    requires
        digit_count(period@) <= PERIOD_DIGITS,
    ensures
        match humantime_nanos(period@) {
            Some(p) => if elapsed >= p {
                due is Yes
            } else {
                due is No
            },
            None => due is BadPeriod,
        },
{
    match parse_duration_nanos(period) {
        Some(p) => if elapsed >= p {
            Due::Yes
        } else {
            Due::No
        },
        None => Due::BadPeriod,
    }
}

} // verus!
