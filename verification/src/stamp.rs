//! Wall-clock timestamps, reduced to the fields a rendered log line shows.

use vstd::prelude::*;
use chrono::Timelike;

verus! {

/// A time of day with millisecond precision, as it appears in the
/// timestamp prefix of a rendered log line.
#[derive(Clone, Copy, Debug, PartialEq, Eq, Structural)]
pub struct Timestamp {
    pub hour: u32,
    pub minute: u32,
    pub second: u32,
    pub millis: u32,
}

impl Timestamp {
    /// The fields lie in their calendar ranges.
    pub open spec fn wf(&self) -> bool {
        self.hour < 24 && self.minute < 60 && self.second < 60 && self.millis < 1000
    }

    /// Builds a timestamp from its fields.
    pub fn new(hour: u32, minute: u32, second: u32, millis: u32) -> (t: Timestamp)
        requires
            hour < 24,
            minute < 60,
            second < 60,
            millis < 1000,
        ensures
            t.wf(),
            t == (Timestamp { hour, minute, second, millis }),
    {
        Timestamp { hour, minute, second, millis }
    }
}

/// Relies on chrono's `DateTime::from_timestamp` and `with_timezone` to
/// read the clock as local time, and on the `Timelike` accessors `hour`,
/// `minute` and `second`, which return values inside their calendar ranges,
/// and `timestamp_subsec_millis`, which stays below 2000 (it can pass 999
/// only during a leap second). A clock before the Unix epoch or outside
/// chrono's range is reported as the epoch's midnight rather than let
/// panic. The time itself depends on the clock, so nothing more is
/// promised of the values.
#[verifier::external_body]
fn local_now_parts() -> (t: (u32, u32, u32, u32))
    ensures
        t.0 < 24,
        t.1 < 60,
        t.2 < 60,
        t.3 < 2000,
{
    let since_epoch = std::time::SystemTime::now().duration_since(std::time::UNIX_EPOCH);
    let (secs, nanos) = match since_epoch {
        Ok(d) => (d.as_secs(), d.subsec_nanos()),
        Err(_) => return (0, 0, 0, 0),
    };
    let utc = match chrono::DateTime::from_timestamp(secs as i64, nanos) {
        Some(t) => t,
        None => return (0, 0, 0, 0),
    };
    let now = utc.with_timezone(&chrono::Local);
    (now.hour(), now.minute(), now.second(), now.timestamp_subsec_millis())
}

/// Reads the local wall clock. During a leap second the clock reports a
/// millisecond count past 999; it is capped so that the result always
/// fits the rendered `HH:MM:SS.mmm` shape.
pub fn current_timestamp() -> (t: Timestamp)
    ensures
        t.wf(),
{
    let (hour, minute, second, raw_millis) = local_now_parts();
    let millis: u32 = if raw_millis > 999 {
        999
    } else {
        raw_millis
    };
    Timestamp { hour, minute, second, millis }
}

} // verus!
