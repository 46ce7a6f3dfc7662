//! The moment a record is stamped with.

use vstd::prelude::*;

verus! {

/// When a record was written: a known second of the Unix epoch, or the
/// moment at which the record is shown, where the line gives no usable time.
#[derive(Debug, Clone, Copy, PartialEq, Eq, Structural)]
pub enum LogTime {
    At(i64),
    Now,
}

/// The last second of the Unix epoch that the calendar can show:
/// the end of the year 262142.
pub const LAST_SECOND: i64 = 8_210_266_876_799;

/// `chrono::DateTime::from_timestamp` with no nanoseconds: whether `secs`
/// seconds after the epoch is a moment the calendar can show. From the epoch
/// on, that is so up to the last second of the year 262142.
#[verifier::external_body]
fn within_calendar(secs: i64) -> (shown: bool)
    ensures
        0 <= secs ==> shown == (secs <= LAST_SECOND),
{
    chrono::DateTime::from_timestamp(secs, 0).is_some()
}

/// The moment for a time given in milliseconds of the epoch.
pub open spec fn moment_of(time: Option<u64>) -> LogTime {
    match time {
        Some(millis) => if millis / 1000 <= LAST_SECOND {
            LogTime::At((millis / 1000) as i64)
        } else {
            LogTime::Now
        },
        None => LogTime::Now,
    }
}

/// Stamps a record: the second that `time` falls in where the calendar can
/// show it, the present otherwise.
pub fn moment(time: Option<u64>) -> (stamp: LogTime)
    ensures
        stamp == moment_of(time),
{
    match time {
        Some(millis) => {
            let secs: u64 = millis / 1000;
            let secs: i64 = secs as i64;
            if within_calendar(secs) {
                LogTime::At(secs)
            } else {
                LogTime::Now
            }
        },
        None => LogTime::Now,
    }
}

/// `chrono::Local::now` and `DateTime::timestamp`: the present, in seconds
/// of the epoch. Nothing is promised of it: it differs from call to call.
#[verifier::external_body]
fn present() -> i64 {
    chrono::Local::now().timestamp()
}

impl LogTime {
    /// The second that the stamp stands for when the present is `now`.
    pub open spec fn second_at(self, now: i64) -> i64 {
        match self {
            LogTime::At(second) => second,
            LogTime::Now => now,
        }
    }

    /// The second that the stamp stands for when the present is `now`.
    pub fn at(self, now: i64) -> (second: i64)
        ensures
            second == self.second_at(now),
    {
        match self {
            LogTime::At(second) => second,
            LogTime::Now => now,
        }
    }

    /// The second to show for the stamp: the one it names, or the present,
    /// read from the clock, where it names none.
    pub fn second(self) -> (second: i64)
        ensures
            self matches LogTime::At(known) ==> second == known,
    {
        match self {
            LogTime::At(known) => known,
            LogTime::Now => self.at(present()),
        }
    }
}

} // verus!
