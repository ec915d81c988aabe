//! The local time of day that drives the clock hands, read from a Unix
//! timestamp and a UTC offset through the `time` crate, and the positions of
//! the hands that follow from it.

use vstd::prelude::*;

verus! {

/// Nanoseconds in a millisecond.
pub const NANOS_PER_MILLI: i128 = 1_000_000;

/// Nanoseconds in a second.
pub const NANOS_PER_SECOND: i128 = 1_000_000_000;

/// Nanoseconds in a minute.
pub const NANOS_PER_MINUTE: i128 = 60_000_000_000;

/// Nanoseconds in an hour.
pub const NANOS_PER_HOUR: i128 = 3_600_000_000_000;

/// Nanoseconds in a day.
pub const NANOS_PER_DAY: i128 = 86_400_000_000_000;

/// Unix timestamp (seconds) of the earliest instant the `time` crate
/// represents: -9999-01-01 00:00:00 UTC.
pub const MIN_UNIX_SECONDS: i128 = -377_705_116_800;

/// Unix timestamp (seconds) of the latest whole second the `time` crate
/// represents: 9999-12-31 23:59:59 UTC.
pub const MAX_UNIX_SECONDS: i128 = 253_402_300_799;

/// Largest magnitude of a UTC offset in seconds: 25 hours, 59 minutes and
/// 59 seconds.
pub const MAX_OFFSET_SECONDS: i32 = 93_599;

/// Milliseconds in one turn of the second hand.
pub const SECOND_HAND_PERIOD_MS: u32 = 60_000;

/// Milliseconds in one turn of the minute hand.
pub const MINUTE_HAND_PERIOD_MS: u32 = 3_600_000;

/// Milliseconds in one turn of the hour hand.
pub const HOUR_HAND_PERIOD_MS: u32 = 43_200_000;

/// Milliseconds in a day.
pub const DAY_MS: u32 = 86_400_000;

/// A nanosecond Unix timestamp within the range of the `time` crate.
pub open spec fn timestamp_supported(unix_nanos: int) -> bool {
    MIN_UNIX_SECONDS * NANOS_PER_SECOND <= unix_nanos <= MAX_UNIX_SECONDS * NANOS_PER_SECOND + (
    NANOS_PER_SECOND - 1)
}

/// A UTC offset in seconds that the `time` crate accepts.
pub open spec fn offset_in_range(seconds: int) -> bool {
    -MAX_OFFSET_SECONDS <= seconds <= MAX_OFFSET_SECONDS
}

/// Nanoseconds since local midnight at `unix_nanos`, at `offset_seconds`
/// east of UTC.
pub open spec fn local_day_nanos(unix_nanos: int, offset_seconds: int) -> int {
    (unix_nanos + offset_seconds * NANOS_PER_SECOND) % (NANOS_PER_DAY as int)
}

/// The clock reading (hour, minute, second, millisecond) `day_nanos`
/// nanoseconds after midnight.
pub open spec fn hms_milli_of_day(day_nanos: int) -> (u8, u8, u8, u16) {
    (
        (day_nanos / NANOS_PER_HOUR as int) as u8,
        ((day_nanos / NANOS_PER_MINUTE as int) % 60) as u8,
        ((day_nanos / NANOS_PER_SECOND as int) % 60) as u8,
        ((day_nanos / NANOS_PER_MILLI as int) % 1000) as u16,
    )
}

/// The offset used for the local time: the reported one when there is one
/// and it is in range, else UTC.
pub open spec fn spec_local_offset(reported: Option<i32>) -> i32 {
    match reported {
        Some(seconds) => if offset_in_range(seconds as int) {
            seconds
        } else {
            0
        },
        None => 0,
    }
}

/// Calls `time::UtcOffset::from_whole_seconds`. Claims that it succeeds
/// exactly when the offset lies within 25:59:59 of UTC either way, the range
/// of the seconds it checks its argument against in the crate's source.
#[verifier::external_body]
fn offset_supported(seconds: i32) -> (r: bool)
    ensures
        r == offset_in_range(seconds as int),
{
    time::UtcOffset::from_whole_seconds(seconds).is_ok()
}

/// Calls `time::OffsetDateTime::from_unix_timestamp_nanos`, then `to_offset`
/// with the `UtcOffset` that `from_whole_seconds` makes of `offset_seconds`,
/// then `to_hms_milli`. Claims that the result is the hour, minute, second
/// and millisecond of the local time of day: the timestamp shifted by the
/// offset, taken modulo a day, as the source computes the time of day with
/// Euclidean remainders. The requirements keep both the UTC and the local
/// date-time within the crate's range, where none of the calls fails or
/// panics.
#[verifier::external_body]
fn local_hms_milli(unix_nanos: i128, offset_seconds: i32) -> (r: (u8, u8, u8, u16))
    requires
        timestamp_supported(unix_nanos as int),
        offset_in_range(offset_seconds as int),
        timestamp_supported(unix_nanos + offset_seconds * NANOS_PER_SECOND),
    ensures
        r == hms_milli_of_day(local_day_nanos(unix_nanos as int, offset_seconds as int)),
{
    let offset = time::UtcOffset::from_whole_seconds(offset_seconds).unwrap();
    time::OffsetDateTime::from_unix_timestamp_nanos(unix_nanos).unwrap().to_offset(
        offset,
    ).to_hms_milli()
}

/// A reading of a 24-hour clock.
#[derive(Clone, Copy, Debug, PartialEq, Eq, Structural)]
pub struct ClockTime {
    pub hour: u8,
    pub minute: u8,
    pub second: u8,
    pub millisecond: u16,
}

/// The positions of the hands, each in milliseconds into its turn (the hour
/// hand makes two turns a day).
#[derive(Clone, Copy, Debug, PartialEq, Eq, Structural)]
pub struct HandPositions {
    /// Milliseconds into the minute; the second hand turns every
    /// `SECOND_HAND_PERIOD_MS`.
    pub second_ms: u32,
    /// Milliseconds into the hour; the minute hand turns every
    /// `MINUTE_HAND_PERIOD_MS`.
    pub minute_ms: u32,
    /// Milliseconds since midnight; the hour hand turns every
    /// `HOUR_HAND_PERIOD_MS`, and the colours follow this time too.
    pub day_ms: u32,
}

/// The clock reading `day_nanos` nanoseconds after midnight.
pub open spec fn spec_clock_time(day_nanos: int) -> ClockTime {
    let t = hms_milli_of_day(day_nanos);
    ClockTime { hour: t.0, minute: t.1, second: t.2, millisecond: t.3 }
}

impl ClockTime {
    /// Every field lies within its range on a 24-hour clock.
    pub open spec fn wf(&self) -> bool {
        &&& self.hour < 24
        &&& self.minute < 60
        &&& self.second < 60
        &&& self.millisecond < 1000
    }

    /// Milliseconds into the minute.
    pub open spec fn spec_second_ms(&self) -> int {
        self.second * 1000 + self.millisecond
    }

    /// Milliseconds into the hour.
    pub open spec fn spec_minute_ms(&self) -> int {
        self.minute * 60_000 + self.spec_second_ms()
    }

    /// Milliseconds since midnight.
    pub open spec fn spec_day_ms(&self) -> int {
        self.hour * 3_600_000 + self.spec_minute_ms()
    }

    /// Where the hands stand at this reading: the second hand moves with the
    /// milliseconds, the minute hand with the seconds, the hour hand with the
    /// minutes.
    pub fn hand_positions(&self) -> (h: HandPositions)
        requires
            self.wf(),
        ensures
            h.second_ms == self.spec_second_ms(),
            h.minute_ms == self.spec_minute_ms(),
            h.day_ms == self.spec_day_ms(),
            h.second_ms == self.second * 1000 + self.millisecond,
            h.minute_ms == self.minute * 60_000 + self.second * 1000 + self.millisecond,
            h.day_ms == self.hour * 3_600_000 + self.minute * 60_000 + self.second * 1000
                + self.millisecond,
    {
        let second_ms = self.second as u32 * 1000 + self.millisecond as u32;
        let minute_ms = self.minute as u32 * 60_000 + second_ms;
        let day_ms = self.hour as u32 * 3_600_000 + minute_ms;
        HandPositions { second_ms, minute_ms, day_ms }
    }
}

/// The offset of the local time zone: the reported offset in seconds when
/// there is one that `time` accepts, else UTC.
pub fn local_offset_or_utc(reported: Option<i32>) -> (r: i32)
    ensures
        r == spec_local_offset(reported),
        match reported {
            Some(s) => if -93_599 <= s <= 93_599 {
                r == s
            } else {
                r == 0
            },
            None => r == 0,
        },
{
    match reported {
        Some(seconds) => {
            if offset_supported(seconds) {
                seconds
            } else {
                0
            }
        },
        None => 0,
    }
}

/// The local clock reading at `unix_nanos` (nanoseconds since the Unix
/// epoch, UTC) in the zone whose offset was reported as `reported_offset`
/// (falling back to UTC as `local_offset_or_utc` does).
pub fn local_clock_time(unix_nanos: i128, reported_offset: Option<i32>) -> (t: ClockTime)
    requires
        timestamp_supported(unix_nanos as int),
        timestamp_supported(
            unix_nanos + spec_local_offset(reported_offset) * NANOS_PER_SECOND,
        ),
    ensures
        t == spec_clock_time(
            local_day_nanos(unix_nanos as int, spec_local_offset(reported_offset) as int),
        ),
        t.wf(),
        match reported_offset {
            Some(s) => -93_599 <= s <= 93_599 ==> t.hour * 3_600_000 + t.minute * 60_000
                + t.second * 1000 + t.millisecond == ((unix_nanos + s * 1_000_000_000)
                % 86_400_000_000_000) / 1_000_000,
            None => t.hour * 3_600_000 + t.minute * 60_000 + t.second * 1000 + t.millisecond
                == (unix_nanos % 86_400_000_000_000) / 1_000_000,
        },
{
    let offset = local_offset_or_utc(reported_offset);
    let (hour, minute, second, millisecond) = local_hms_milli(unix_nanos, offset);
    proof {
        lemma_clock_time_wf(local_day_nanos(unix_nanos as int, offset as int));
        lemma_hands_show_time_of_day(local_day_nanos(unix_nanos as int, offset as int));
    }
    ClockTime { hour, minute, second, millisecond }
}

/// The reading of any time of day is a valid 24-hour clock reading.
pub proof fn lemma_clock_time_wf(day_nanos: int)
    requires
        0 <= day_nanos < NANOS_PER_DAY,
    ensures
        spec_clock_time(day_nanos).wf(),
{
}

/// Each hand stays within its turn: the second hand within a minute, the
/// minute hand within an hour, and the time of day within a day (two turns
/// of the hour hand).
pub proof fn lemma_hands_within_periods(t: ClockTime)
    requires
        t.wf(),
    ensures
        0 <= t.spec_second_ms() < SECOND_HAND_PERIOD_MS,
        0 <= t.spec_minute_ms() < MINUTE_HAND_PERIOD_MS,
        0 <= t.spec_day_ms() < DAY_MS,
        DAY_MS == 2 * HOUR_HAND_PERIOD_MS,
{
}

/// The hands show the time of day: for the reading taken `day_nanos`
/// nanoseconds after midnight, the milliseconds since midnight of its hands
/// are the whole milliseconds in `day_nanos`.
pub proof fn lemma_hands_show_time_of_day(day_nanos: int)
    requires
        0 <= day_nanos < NANOS_PER_DAY,
    ensures
        spec_clock_time(day_nanos).spec_day_ms() == day_nanos / NANOS_PER_MILLI as int,
{
    let m = day_nanos / 1_000_000;
    let s = m / 1000;
    let mi = s / 60;
    assert(day_nanos / 1_000_000_000 == s) by {
        vstd::arithmetic::div_mod::lemma_div_denominator(day_nanos, 1_000_000, 1000);
    }
    assert(day_nanos / 60_000_000_000 == mi) by {
        vstd::arithmetic::div_mod::lemma_div_denominator(day_nanos, 1_000_000_000, 60);
    }
    assert(day_nanos / 3_600_000_000_000 == mi / 60) by {
        vstd::arithmetic::div_mod::lemma_div_denominator(day_nanos, 60_000_000_000, 60);
    }
    assert(0 <= m < 86_400_000);
    assert(m == 1000 * s + m % 1000);
    assert(s == 60 * mi + s % 60);
    assert(mi == 60 * (mi / 60) + mi % 60);
    lemma_clock_time_wf(day_nanos);
}

/// The hands of the local clock show the local time of day: the
/// milliseconds since midnight of `local_clock_time`'s reading are the whole
/// milliseconds of the timestamp shifted by the local offset, modulo a day.
pub proof fn lemma_local_clock_shows_local_time(unix_nanos: int, reported_offset: Option<i32>)
    ensures
        spec_clock_time(local_day_nanos(unix_nanos, spec_local_offset(reported_offset) as int)).spec_day_ms()
            == ((unix_nanos + spec_local_offset(reported_offset) * NANOS_PER_SECOND) % (
        NANOS_PER_DAY as int)) / NANOS_PER_MILLI as int,
{
    lemma_hands_show_time_of_day(
        local_day_nanos(unix_nanos, spec_local_offset(reported_offset) as int),
    );
}

/// The reported offset is used whenever the `time` crate accepts it, that is
/// for every offset within 25:59:59 of UTC either way; UTC (zero) is used
/// only when no offset was reported or the reported one is out of range.
pub proof fn lemma_reported_offset_is_used(s: i32)
    ensures
        -93_599 <= s <= 93_599 ==> spec_local_offset(Some(s)) == s,
        !(-93_599 <= s <= 93_599) ==> spec_local_offset(Some(s)) == 0,
        spec_local_offset(None) == 0,
{
}

/// The local clock shows the time of day of the instant shifted by the
/// reported offset: for a reported offset `s` in range, its reading is the
/// hour, minute, second and millisecond of `unix_nanos + s` seconds modulo a
/// day; with no offset it is the UTC time of day.
pub proof fn lemma_local_clock_reading(unix_nanos: int, s: i32)
    requires
        -93_599 <= s <= 93_599,
    ensures
        ({
            let d = (unix_nanos + s * 1_000_000_000) % 86_400_000_000_000;
            let t = spec_clock_time(local_day_nanos(unix_nanos, spec_local_offset(Some(s)) as int));
            &&& t.hour == d / 3_600_000_000_000
            &&& t.minute == (d / 60_000_000_000) % 60
            &&& t.second == (d / 1_000_000_000) % 60
            &&& t.millisecond == (d / 1_000_000) % 1000
            &&& t.hour * 3_600_000 + t.minute * 60_000 + t.second * 1000 + t.millisecond == d
                / 1_000_000
        }),
        ({
            let d = unix_nanos % 86_400_000_000_000;
            let t = spec_clock_time(local_day_nanos(unix_nanos, spec_local_offset(None) as int));
            &&& t.hour == d / 3_600_000_000_000
            &&& t.minute == (d / 60_000_000_000) % 60
            &&& t.second == (d / 1_000_000_000) % 60
            &&& t.millisecond == (d / 1_000_000) % 1000
        }),
{
    let d = (unix_nanos + s * 1_000_000_000) % 86_400_000_000_000;
    lemma_hands_show_time_of_day(d);
    lemma_clock_time_wf(d);
    lemma_clock_time_wf(unix_nanos % 86_400_000_000_000);
}

/// Each hand position is the time elapsed in its turn: the second hand the
/// milliseconds into the minute, the minute hand the milliseconds into the
/// hour, the hour hand the milliseconds since midnight.
pub proof fn lemma_hand_positions_are_elapsed_time(t: ClockTime)
    ensures
        t.spec_second_ms() == t.second * 1000 + t.millisecond,
        t.spec_minute_ms() == t.minute * 60_000 + t.second * 1000 + t.millisecond,
        t.spec_day_ms() == t.hour * 3_600_000 + t.minute * 60_000 + t.second * 1000
            + t.millisecond,
{
}

} // verus!
