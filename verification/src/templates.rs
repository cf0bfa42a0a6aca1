//! What the pages of the feed are filled with. Rendering them is the
//! caller's business; how a time is shown to a viewer is decided here.

use vstd::prelude::*;
use crate::bots::opt_string_view;
use crate::content::{unix_millis_now, Message};

verus! {

/// How the time of a message of today is shown: hour and minute on the
/// twelve-hour clock.
pub const TIME_ONLY: &'static str = "%I:%M %P";

/// How the time of an older message is shown: the date, then the time.
pub const DATE_AND_TIME: &'static str = "%d %b, %Y - %I:%M %P";

/// The milliseconds of a day.
pub const DAY_MILLIS: i64 = 86_400_000;

/// What chrono's `format` gives for the instant `millis` milliseconds after
/// the Unix epoch, seen `west_seconds` seconds west of UTC, by the strftime
/// pattern `pattern`; `None` where chrono has no such instant or no such
/// offset.
pub uninterp spec fn formatted(millis: int, west_seconds: int, pattern: Seq<char>) -> Option<
    Seq<char>,
>;

/// The page on which a viewer chooses a name. It shows nothing of the feed.
#[derive(Debug)]
pub struct StartTemplate;

/// The page of the feed itself. Its contents arrive as events.
#[derive(Debug)]
pub struct FeedTemplate;

/// One message as a viewer sees it.
#[derive(Debug)]
pub struct MessageTemplate {
    pub message: Message,
    /// The viewer's offset from UTC in minutes, west positive.
    pub tz: i32,
}

/// The day, counted from the Unix epoch in UTC, on which an instant falls.
pub open spec fn day_of(millis: int) -> int {
    millis / (DAY_MILLIS as int)
}

/// The pattern by which a message sent at `sent_date` is shown at `now`: the
/// time alone where both fall on one day of UTC, otherwise date and time.
pub open spec fn pattern_for(sent_date: int, now: int) -> Seq<char> {
    if day_of(sent_date) == day_of(now) {
        TIME_ONLY@
    } else {
        DATE_AND_TIME@
    }
}

/// How the time of a message sent at `sent_date` is shown at `now` to a
/// viewer `tz` minutes west of UTC.
pub open spec fn datetime_text(sent_date: int, now: int, tz: int) -> Option<Seq<char>> {
    if i32::MIN <= tz * 60 <= i32::MAX {
        formatted(sent_date, tz * 60, pattern_for(sent_date, now))
    } else {
        None
    }
}

/// `FixedOffset::west_opt`, `DateTime::from_timestamp_millis`,
/// `DateTime::with_timezone` and `DateTime::format` of chrono: the instant in
/// the given offset, written by the pattern. `None` where chrono refuses the
/// offset or the instant. The pattern must be one of the two of this module:
/// chrono's formatter fails on a pattern that it cannot read.
#[verifier::external_body]
fn format_at(millis: i64, west_seconds: i32, pattern: &str) -> (r: Option<String>)
    requires
        pattern@ == TIME_ONLY@ || pattern@ == DATE_AND_TIME@,
    ensures
        opt_string_view(r) == formatted(millis as int, west_seconds as int, pattern@),
{
    let offset = chrono::FixedOffset::west_opt(west_seconds)?;
    let instant = chrono::DateTime::from_timestamp_millis(millis)?;
    Some(instant.with_timezone(&offset).format(pattern).to_string())
}

/// The day on which an instant falls.
fn day(millis: i64) -> (d: i64)
    ensures
        d == day_of(millis as int),
{
    match millis.checked_div_euclid(DAY_MILLIS) {
        Some(d) => d,
        None => {
            assert(false) by {
                assert(i64::MIN <= (millis as int) / (DAY_MILLIS as int) <= i64::MAX)
                    by (nonlinear_arith)
                    requires
                        i64::MIN <= millis <= i64::MAX,
                        DAY_MILLIS == 86_400_000,
                ;
            }
            0
        },
    }
}

/// Writes the time of a message sent at `sent_date` as it is shown at `now` to
/// a viewer `tz` minutes west of UTC. `None` where the offset or the instant
/// is beyond what chrono can hold.
pub fn format_datetime_at(sent_date: i64, now: i64, tz: i32) -> (r: Option<String>)
    ensures
        opt_string_view(r) == datetime_text(sent_date as int, now as int, tz as int),
{
    let is_today = day(now) == day(sent_date);
    match tz.checked_mul(60) {
        Some(west_seconds) => {
            if is_today {
                format_at(sent_date, west_seconds, TIME_ONLY)
            } else {
                format_at(sent_date, west_seconds, DATE_AND_TIME)
            }
        },
        None => None,
    }
}

/// Writes the time of a message sent at `sent_date` as it is shown now to a
/// viewer `tz` minutes west of UTC.
pub fn format_datetime(sent_date: i64, tz: i32) -> (r: Option<String>)
    ensures
        exists|now: int| opt_string_view(r) == #[trigger] datetime_text(
            sent_date as int,
            now,
            tz as int,
        ),
{
    let now = unix_millis_now();
    let r = format_datetime_at(sent_date, now, tz);
    assert(opt_string_view(r) == datetime_text(sent_date as int, now as int, tz as int));
    r
}

impl MessageTemplate {
    /// The time of the message as the viewer is shown it now.
    pub fn sent_time(&self) -> (r: Option<String>)
        ensures
            exists|now: int| opt_string_view(r) == #[trigger] datetime_text(
                self.message.sent_date as int,
                now,
                self.tz as int,
            ),
    {
        format_datetime(self.message.sent_date, self.tz)
    }
}

} // verus!
