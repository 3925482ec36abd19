//! The TIME_OF_DAY and TIME_DIFFERENCE data types: milliseconds and days in 48 bits.
use vstd::prelude::*;
use core::time::Duration;
use chrono::{Datelike, Timelike};
use crate::le_bytes::{le_u16, le_u32, u16_from_le, u16_le, u16_to_le, u32_from_le, u32_le, u32_to_le};

verus! {

/// The number of milliseconds in a day.
pub const MILLIS_PER_DAY: u64 = 86_400_000;

/// Names what `Duration::from_millis` returns for a number of milliseconds.
pub uninterp spec fn millis_duration(ms: u64) -> Duration;

/// Calls `core::time::Duration::from_millis`, which returns the duration of `ms` milliseconds.
#[verifier::external_body]
pub(crate) fn duration_from_millis(ms: u64) -> (d: Duration)
    ensures
        d == millis_duration(ms),
{
    Duration::from_millis(ms)
}

/// The year of the TIME_OF_DAY epoch, 1984-01-01.
pub const EPOCH_YEAR: u32 = 1984;

/// The month of the TIME_OF_DAY epoch.
pub const EPOCH_MONTH: u32 = 1;

/// The day of the TIME_OF_DAY epoch.
pub const EPOCH_DAY: u32 = 1;

/// Names the calendar date (year, month, day) that chrono gives for a number of milliseconds
/// after midnight of the date `year`-`month`-`day`.
pub uninterp spec fn calendar_date(year: u32, month: u32, day: u32, total_ms: int) -> (u32, u32, u32);

/// Calls chrono: the `NaiveDate` of `year`-`month`-`day` plus `TimeDelta::milliseconds(total_ms)`,
/// read as year, month and day. Chrono makes every date with a month from 1 to 12, a day from 1
/// to 28 and a year from 1 to 200000, and below 2^48 milliseconds (under 9000 years) the sum
/// stays within its range of dates.
#[verifier::external_body]
fn chrono_date_after(year: u32, month: u32, day: u32, total_ms: i64) -> (r: (u32, u32, u32))
    requires
        1 <= year <= 200_000,
        1 <= month <= 12,
        1 <= day <= 28,
        0 <= total_ms < 0x1_0000_0000_0000,
    ensures
        r == calendar_date(year, month, day, total_ms as int),
{
    let start = chrono::NaiveDate::from_ymd_opt(year as i32, month, day).unwrap();
    let date = start + chrono::TimeDelta::milliseconds(total_ms);
    (date.year() as u32, date.month(), date.day())
}

/// Names the milliseconds from midnight of the date `from_year`-`from_month`-`from_day` to the
/// date and time that chrono makes of the other parts, or none where chrono makes no date and
/// time of them.
pub uninterp spec fn epoch_delta_ms(
    from_year: u32,
    from_month: u32,
    from_day: u32,
    year: u32,
    month: u32,
    day: u32,
    hour: u32,
    min: u32,
    sec: u32,
    milli: u32,
) -> Option<i64>;

/// The date and time parts that chrono's `and_hms_milli_opt` refuses: an hour, minute or second
/// out of range, or a millisecond of 1000 or more outside a leap second (second 59).
pub open spec fn invalid_time_parts(hour: u32, min: u32, sec: u32, milli: u32) -> bool {
    hour >= 24 || min >= 60 || sec >= 60 || milli >= 2000 || (milli >= 1000 && sec != 59)
}

/// The days and milliseconds of the time of day `delta` milliseconds after midnight of
/// 1984-01-01: `InvalidDate` when there is no delta; `PreEpoch` when the delta is before the
/// epoch, `OutOfRange` when its whole days do not fit in 16 bits; otherwise the whole days and
/// the milliseconds left.
pub open spec fn epoch_delta_parts(delta: Option<i64>) -> Result<(u16, u32), TimeCreateError> {
    match delta {
        None => Err(TimeCreateError::InvalidDate),
        Some(d) => if d < 0 {
            Err(TimeCreateError::PreEpoch)
        } else if d >= 0x1_0000 * MILLIS_PER_DAY {
            Err(TimeCreateError::OutOfRange)
        } else {
            Ok((((d as int) / (MILLIS_PER_DAY as int)) as u16, ((d as int) % (MILLIS_PER_DAY as int)) as u32))
        },
    }
}

/// `r` is the time of day with the days and milliseconds of `parts`, or its error.
pub open spec fn time_result_is(r: Result<TimeOfDay, TimeCreateError>, parts: Result<(u16, u32), TimeCreateError>) -> bool {
    match parts {
        Ok((days, ms)) => r matches Ok(t) && t.spec_days() == days && t.spec_ms() == ms,
        Err(e) => r == Err::<TimeOfDay, TimeCreateError>(e),
    }
}

/// Calls chrono: `NaiveDate::from_ymd_opt(year as i32, month, day)`, then `and_hms_milli_opt`
/// with the time parts, minus midnight of `from_year`-`from_month`-`from_day`, as
/// `TimeDelta::num_milliseconds`. Each step gives none where chrono finds no such date or time;
/// of which dates exist only the plain month and day ranges and the time parts are stated.
#[verifier::external_body]
fn chrono_delta_ms(
    from_year: u32,
    from_month: u32,
    from_day: u32,
    year: u32,
    month: u32,
    day: u32,
    hour: u32,
    min: u32,
    sec: u32,
    milli: u32,
) -> (r: Option<i64>)
    ensures
        r == epoch_delta_ms(from_year, from_month, from_day, year, month, day, hour, min, sec, milli),
        invalid_time_parts(hour, min, sec, milli) ==> r is None,
        month == 0 || month > 12 || day == 0 || day > 31 ==> r is None,
{
    let from = chrono::NaiveDate::from_ymd_opt(from_year as i32, from_month, from_day)?.and_hms_opt(0, 0, 0)?;
    let t = chrono::NaiveDate::from_ymd_opt(year as i32, month, day)?.and_hms_milli_opt(hour, min, sec, milli)?;
    Some((t - from).num_milliseconds())
}

/// Calls chrono: `NaiveTime::from_num_seconds_from_midnight_opt(secs, nano)`, read as hour,
/// minute, second and nanosecond; for seconds within a day and nanoseconds within a second
/// chrono makes the time, and its parts are these divisions of the seconds.
#[verifier::external_body]
fn chrono_time_parts(secs: u32, nano: u32) -> (r: (u32, u32, u32, u32))
    requires
        secs < 86_400,
        nano < 1_000_000_000,
    ensures
        r == (secs / 3600, (secs / 60) % 60, secs % 60, nano),
{
    let t = chrono::NaiveTime::from_num_seconds_from_midnight_opt(secs, nano).unwrap();
    (t.hour(), t.minute(), t.second(), t.nanosecond())
}

/// Why a time value could not be made from date and time parts.
#[derive(Clone, Copy, Debug, PartialEq, Eq, Structural)]
pub enum TimeCreateError {
    /// The time is before the epoch and cannot be represented
    PreEpoch,
    /// The time is too far into the future to be represented
    OutOfRange,
    /// The date does not exist
    InvalidDate,
}

/// A duration of time in 48 bits: days and milliseconds.
#[derive(Clone, Copy, Debug, PartialEq, Eq, Structural)]
pub struct TimeDifference {
    ms: u32,
    days: u16,
}

/// The six little-endian bytes of milliseconds then days.
pub open spec fn time_bytes(ms: u32, days: u16) -> Seq<u8> {
    u32_le(ms) + u16_le(days)
}

impl TimeDifference {
    /// The size of a TimeDifference object in bytes
    pub const SIZE: usize = 6;

    /// The milliseconds part.
    pub closed spec fn spec_ms(self) -> u32 {
        self.ms
    }

    /// The days part.
    pub closed spec fn spec_days(self) -> u16 {
        self.days
    }

    /// The whole duration in milliseconds.
    pub open spec fn spec_total_millis(self) -> int {
        self.spec_days() * MILLIS_PER_DAY + self.spec_ms()
    }

    /// Creates a time difference from days and milliseconds.
    pub fn new(days: u16, ms: u32) -> (r: TimeDifference)
        ensures
            r.spec_days() == days,
            r.spec_ms() == ms,
    {
        TimeDifference { ms, days }
    }

    /// Reads a time difference from its six little-endian bytes: milliseconds, then days.
    pub fn from_le_bytes(bytes: [u8; 6]) -> (r: TimeDifference)
        ensures
            r.spec_ms() == le_u32(bytes[0], bytes[1], bytes[2], bytes[3]),
            r.spec_days() == le_u16(bytes[4], bytes[5]),
    {
        let ms = u32_from_le(bytes[0], bytes[1], bytes[2], bytes[3]);
        let days = u16_from_le(bytes[4], bytes[5]);
        TimeDifference::new(days, ms)
    }

    /// Returns the six little-endian bytes: milliseconds, then days.
    pub fn to_le_bytes(&self) -> (r: [u8; 6])
        ensures
            r@ == time_bytes(self.spec_ms(), self.spec_days()),
    {
        let m = u32_to_le(self.ms);
        let d = u16_to_le(self.days);
        let r = [m[0], m[1], m[2], m[3], d[0], d[1]];
        assert(r@ =~= time_bytes(self.ms, self.days));
        r
    }

    /// Returns the duration in milliseconds.
    pub fn total_millis(&self) -> (r: u64)
        ensures
            r == self.spec_total_millis(),
    {
        self.days as u64 * MILLIS_PER_DAY + self.ms as u64
    }

    /// Returns the duration.
    pub fn as_duration(&self) -> (r: Duration)
        ensures
            r == millis_duration(self.spec_total_millis() as u64),
    {
        duration_from_millis(self.total_millis())
    }
}

/// A time of day: days since 1984-01-01 and milliseconds after midnight, in 48 bits.
#[derive(Clone, Copy, Debug, PartialEq, Eq, Structural)]
pub struct TimeOfDay(TimeDifference);

impl TimeOfDay {
    /// The size of a TimeOfDay object in bytes
    pub const SIZE: usize = 6;

    /// The milliseconds after midnight.
    pub closed spec fn spec_ms(self) -> u32 {
        self.0.spec_ms()
    }

    /// The days since 1984-01-01.
    pub closed spec fn spec_days(self) -> u16 {
        self.0.spec_days()
    }

    /// The milliseconds since 1984-01-01.
    pub open spec fn spec_total_millis(self) -> int {
        self.spec_days() * MILLIS_PER_DAY + self.spec_ms()
    }

    /// Creates a time of day from the days since 1984-01-01 and the milliseconds after midnight.
    pub fn new(days: u16, ms: u32) -> (r: TimeOfDay)
        ensures
            r.spec_days() == days,
            r.spec_ms() == ms,
    {
        TimeOfDay(TimeDifference::new(days, ms))
    }

    /// The time of day `delta` milliseconds after midnight of 1984-01-01, as `epoch_delta_parts`
    /// gives it.
    pub fn from_epoch_delta(delta: Option<i64>) -> (r: Result<TimeOfDay, TimeCreateError>)
        ensures
            time_result_is(r, epoch_delta_parts(delta)),
    {
        let d = match delta {
            None => return Err(TimeCreateError::InvalidDate),
            Some(d) => d,
        };
        if d < 0 {
            return Err(TimeCreateError::PreEpoch);
        }
        if d >= 0x1_0000i64 * 86_400_000i64 {
            return Err(TimeCreateError::OutOfRange);
        }
        let days: i64 = d / 86_400_000i64;
        let ms: i64 = d % 86_400_000i64;
        assert(0 <= days < 0x1_0000);
        assert(0 <= ms < 86_400_000);
        Ok(TimeOfDay::new(days as u16, ms as u32))
    }

    /// Creates the time of day of a date and time; see [`TimeOfDay::from_epoch_delta`] for what
    /// becomes of the milliseconds between it and 1984-01-01.
    pub fn from_ymd_hms_ms(year: u32, month: u32, day: u32, hour: u32, min: u32, sec: u32, milli: u32) -> (r: Result<
        TimeOfDay,
        TimeCreateError,
    >)
        ensures
            time_result_is(
                r,
                epoch_delta_parts(epoch_delta_ms(EPOCH_YEAR, EPOCH_MONTH, EPOCH_DAY, year, month, day, hour, min, sec, milli)),
            ),
            invalid_time_parts(hour, min, sec, milli) ==> r == Err::<TimeOfDay, TimeCreateError>(TimeCreateError::InvalidDate),
            month == 0 || month > 12 || day == 0 || day > 31 ==> r == Err::<TimeOfDay, TimeCreateError>(TimeCreateError::InvalidDate),
    {
        let delta = chrono_delta_ms(EPOCH_YEAR, EPOCH_MONTH, EPOCH_DAY, year, month, day, hour, min, sec, milli);
        Self::from_epoch_delta(delta)
    }

    /// Returns the time of day as (hour, minute, second, millisecond); the time must lie within
    /// the day.
    pub fn time_hmsm(&self) -> (r: (u32, u32, u32, u32))
        requires
            self.spec_ms() < MILLIS_PER_DAY,
        ensures
            r == (self.spec_ms() / 1000 / 3600, (self.spec_ms() / 1000 / 60) % 60, (self.spec_ms() / 1000) % 60, self.spec_ms() % 1000),
    {
        let ms = self.0.ms;
        let sec = ms / 1000;
        let nanos = (ms % 1000) * 1000;
        let (h, m, s, n) = chrono_time_parts(sec, nanos);
        (h, m, s, n / 1000)
    }

    /// Reads a time of day from its six little-endian bytes: milliseconds, then days.
    pub fn from_le_bytes(bytes: [u8; 6]) -> (r: TimeOfDay)
        ensures
            r.spec_ms() == le_u32(bytes[0], bytes[1], bytes[2], bytes[3]),
            r.spec_days() == le_u16(bytes[4], bytes[5]),
    {
        TimeOfDay(TimeDifference::from_le_bytes(bytes))
    }

    /// Returns the six little-endian bytes: milliseconds, then days.
    pub fn to_le_bytes(&self) -> (r: [u8; 6])
        ensures
            r@ == time_bytes(self.spec_ms(), self.spec_days()),
    {
        self.0.to_le_bytes()
    }

    /// Returns the date as (year, month, day).
    pub fn date_ymd(&self) -> (r: (u32, u32, u32))
        ensures
            r == calendar_date(EPOCH_YEAR, EPOCH_MONTH, EPOCH_DAY, self.spec_total_millis()),
    {
        let total = self.0.total_millis();
        assert(total < 0x1_0000_0000_0000);
        chrono_date_after(EPOCH_YEAR, EPOCH_MONTH, EPOCH_DAY, total as i64)
    }

    /// Returns the number of days since 1984-01-01.
    pub fn days(&self) -> (r: u16)
        ensures
            r == self.spec_days(),
    {
        self.0.days
    }

    /// Returns the number of milliseconds since midnight.
    pub fn time_millis(&self) -> (r: u32)
        ensures
            r == self.spec_ms(),
    {
        self.0.ms
    }

    /// Returns the time since midnight.
    pub fn time_duration(&self) -> (r: Duration)
        ensures
            r == millis_duration(self.spec_ms() as u64),
    {
        duration_from_millis(self.time_millis() as u64)
    }

    /// Returns the number of milliseconds since 1984-01-01.
    pub fn total_millis(&self) -> (r: u64)
        ensures
            r == self.spec_total_millis(),
    {
        self.0.total_millis()
    }
}

/// Reading a time value back from its bytes gives the value.
pub proof fn lemma_time_bytes_roundtrip(ms: u32, days: u16)
    ensures
        ({
            let b = time_bytes(ms, days);
            le_u32(b[0], b[1], b[2], b[3]) == ms && le_u16(b[4], b[5]) == days
        }),
{
    crate::le_bytes::lemma_u32_le_roundtrip(ms);
    crate::le_bytes::lemma_u16_le_roundtrip(days);
}

/// A time value is stored as six bytes: the milliseconds in bytes 0 to 3 and the days in bytes
/// 4 and 5, each with the lowest byte first.
pub proof fn lemma_time_bytes_layout(ms: u32, days: u16)
    ensures
        ({
            let b = time_bytes(ms, days);
            &&& b.len() == 6
            &&& b[0] + 256 * b[1] + 65536 * b[2] + 16777216 * b[3] == ms
            &&& b[4] + 256 * b[5] == days
        }),
{
    crate::le_bytes::lemma_little_endian_values(days, ms, 0, 0, 0, 0);
}

} // verus!
