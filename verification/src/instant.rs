//! Instants: points in time, each kept with the zone in whose wall clock it is
//! to be shown.
//!
//! A text becomes an instant in three steps: it is lowered, it is read as a
//! wall-clock reading, and the reading is placed in the zone. Where the zone's
//! clocks showed the reading twice, or never, there is no instant: nothing is
//! picked on the caller's behalf.

use crate::catalog::Zone;
use crate::shape::{read_wall_clock, wall_clock_of, WallClock};
use crate::text::{lowercase, lowercase_of};
use vstd::prelude::*;

verus! {

/// The instants at which the wall clock of a zone shows a given reading.
#[derive(Clone, Copy, Debug, PartialEq, Eq)]
pub enum LocalTimes {
    /// None: the zone is not in the time zone database, the reading is no
    /// date or no time of day, or the zone's clocks skipped it.
    Never,
    /// Exactly one, given as seconds since 1970-01-01 00:00:00 UTC and the
    /// nanoseconds past that second.
    Once { seconds: i64, nanos: u32 },
    /// Two: the zone's clocks were set back over the reading.
    Twice,
}

/// A point in time, and the zone in whose wall clock it is shown.
#[derive(Debug, PartialEq, Eq)]
pub struct ResolvedInstant {
    /// Seconds since 1970-01-01 00:00:00 UTC.
    pub seconds: i64,
    /// Nanoseconds past that second.
    pub nanos: u32,
    pub zone: Zone,
}

impl Clone for ResolvedInstant {
    fn clone(&self) -> (copy: ResolvedInstant)
        ensures
            copy == *self,
    {
        ResolvedInstant { seconds: self.seconds, nanos: self.nanos, zone: self.zone.clone() }
    }
}

/// The instants at which the time zone database has the wall clock of the
/// zone named `zone` show the given reading.
pub uninterp spec fn local_times_of(
    zone: Seq<char>,
    year: int,
    month: int,
    day: int,
    hour: int,
    minute: int,
    second: int,
    nanosecond: int,
) -> LocalTimes;

/// The instants at which the wall clock of a zone shows a reading.
pub open spec fn times_at(zone: Seq<char>, reading: WallClock) -> LocalTimes {
    local_times_of(
        zone,
        reading.year as int,
        reading.month as int,
        reading.day as int,
        reading.hour as int,
        reading.minute as int,
        reading.second as int,
        reading.nanosecond as int,
    )
}

/// Calls `chrono::TimeZone::from_local_datetime` and tells the three variants
/// of its result apart. The zone comes from `chrono_tz::Tz::from_str` on the
/// name, the local date and time from `chrono::NaiveDate::from_ymd_opt` and
/// `and_hms_nano_opt` on the fields; where either has none to give, the result
/// is `Never`. A single result is handed back as its `timestamp` and its
/// `timestamp_subsec_nanos`.
///
/// Trusted: the result depends on the name and the fields alone, which is what
/// naming it `local_times_of` says. Nothing else is claimed of it.
#[verifier::external_body]
pub(crate) fn local_times(zone: &str, reading: &WallClock) -> (times: LocalTimes)
    ensures
        times == local_times_of(
            zone@,
            reading.year as int,
            reading.month as int,
            reading.day as int,
            reading.hour as int,
            reading.minute as int,
            reading.second as int,
            reading.nanosecond as int,
        ),
{
    let Ok(tz) = zone.parse::<chrono_tz::Tz>() else { return LocalTimes::Never };
    let Some(date) = chrono::NaiveDate::from_ymd_opt(reading.year, reading.month, reading.day)
    else { return LocalTimes::Never };
    let Some(naive) =
        date.and_hms_nano_opt(reading.hour, reading.minute, reading.second, reading.nanosecond)
    else { return LocalTimes::Never };
    match chrono::TimeZone::from_local_datetime(&tz, &naive) {
        chrono::LocalResult::Single(at) => {
            LocalTimes::Once { seconds: at.timestamp(), nanos: at.timestamp_subsec_nanos() }
        },
        chrono::LocalResult::Ambiguous(_, _) => LocalTimes::Twice,
        chrono::LocalResult::None => LocalTimes::Never,
    }
}

/// The reading that the time zone database has the wall clock of the zone named
/// `zone` show at a point in time, where it has one.
pub uninterp spec fn shown_reading_of(zone: Seq<char>, seconds: int, nanos: int) -> Option<
    WallClock,
>;

/// Calls `chrono::TimeZone::timestamp_opt` and reads the local date and time
/// of its single result, field by field, through `chrono::Datelike` and
/// `chrono::Timelike`. The zone comes from `chrono_tz::Tz::from_str` on the
/// name; where no zone has the name, or the point in time is more than
/// `chrono` can hold, there is no reading.
///
/// Trusted: the result depends on the name and the two numbers alone, which is
/// what naming it `shown_reading_of` says. Nothing else is claimed of it.
#[verifier::external_body]
pub(crate) fn shown_reading(zone: &str, seconds: i64, nanos: u32) -> (reading: Option<WallClock>)
    ensures
        reading == shown_reading_of(zone@, seconds as int, nanos as int),
{
    let Ok(tz) = zone.parse::<chrono_tz::Tz>() else { return None };
    let chrono::LocalResult::Single(at) = chrono::TimeZone::timestamp_opt(&tz, seconds, nanos)
    else { return None };
    Some(WallClock {
        year: chrono::Datelike::year(&at),
        month: chrono::Datelike::month(&at),
        day: chrono::Datelike::day(&at),
        hour: chrono::Timelike::hour(&at),
        minute: chrono::Timelike::minute(&at),
        second: chrono::Timelike::second(&at),
        nanosecond: chrono::Timelike::nanosecond(&at),
    })
}

/// The one instant among `times`, shown in `zone`: none where there are two,
/// none where there is none.
pub open spec fn single_instant(times: LocalTimes, zone: Zone) -> Option<ResolvedInstant> {
    match times {
        LocalTimes::Once { seconds, nanos } => Some(ResolvedInstant { seconds, nanos, zone }),
        LocalTimes::Twice => None,
        LocalTimes::Never => None,
    }
}

/// The instant that a lowered text stands for in a zone.
pub open spec fn parsed_instant(zone: Zone, lowered: Seq<char>, now: WallClock) -> Option<
    ResolvedInstant,
> {
    match wall_clock_of(lowered, now) {
        Some(reading) => single_instant(times_at(zone@, reading), zone),
        None => None,
    }
}

/// The same point in time, shown in another zone.
pub open spec fn reprojected(instant: ResolvedInstant, zone: Zone) -> ResolvedInstant {
    ResolvedInstant { seconds: instant.seconds, nanos: instant.nanos, zone }
}

impl ResolvedInstant {
    /// What the wall clock of the instant's zone shows at the instant.
    pub fn wall_clock(&self) -> (reading: Option<WallClock>)
        ensures
            reading == shown_reading_of(self.zone@, self.seconds as int, self.nanos as int),
    {
        shown_reading(self.zone.name(), self.seconds, self.nanos)
    }
}

/// Picks the instant where there is exactly one.
pub fn the_single(times: LocalTimes, zone: Zone) -> (instant: Option<ResolvedInstant>)
    ensures
        instant == single_instant(times, zone),
{
    match times {
        LocalTimes::Once { seconds, nanos } => Some(ResolvedInstant { seconds, nanos, zone }),
        LocalTimes::Twice => None,
        LocalTimes::Never => None,
    }
}

/// The instant at which the wall clock of `zone` shows `reading`, where there
/// is exactly one.
pub fn at_wall_clock(zone: Zone, reading: &WallClock) -> (instant: Option<ResolvedInstant>)
    ensures
        instant == single_instant(times_at(zone@, *reading), zone),
{
    let times = local_times(zone.name(), reading);
    the_single(times, zone)
}

/// The instant that a text stands for in `tz`, the text being in lower case
/// already.
pub fn parse_lowered(tz: Zone, lowered: &str, reference_now: &WallClock) -> (instant: Option<
    ResolvedInstant,
>)
    ensures
        instant == parsed_instant(tz, lowered@, *reference_now),
{
    match read_wall_clock(lowered, reference_now) {
        Some(reading) => at_wall_clock(tz, &reading),
        None => None,
    }
}

/// The instant that a typed date, time, or date and time stands for on the
/// wall clock of `tz`. Capitals count as small letters; where the text names
/// no date, the date is that of `reference_now`.
///
/// There is none where the text has none of the four shapes, and none where
/// the wall clock of `tz` shows the reading never or twice.
pub fn parse_datetime_in_tz(tz: Zone, datetime: &str, reference_now: &WallClock) -> (instant:
    Option<ResolvedInstant>)
    ensures
        instant == parsed_instant(tz, lowercase_of(datetime@), *reference_now),
{
    let lowered = lowercase(datetime);
    parse_lowered(tz, lowered.as_str(), reference_now)
}

/// Shows the same point in time in another zone.
pub fn convert(dt: ResolvedInstant, to_timezone: Zone) -> (shown: ResolvedInstant)
    ensures
        shown == reprojected(dt, to_timezone),
{
    ResolvedInstant { seconds: dt.seconds, nanos: dt.nanos, zone: to_timezone }
}

/// Showing an instant in another zone and then in a third leaves the point in
/// time as it was; shown again in its own zone, the instant is what it was.
pub proof fn round_trip_keeps_the_instant(instant: ResolvedInstant, there: Zone, back: Zone)
    ensures
        reprojected(reprojected(instant, there), back).seconds == instant.seconds,
        reprojected(reprojected(instant, there), back).nanos == instant.nanos,
        reprojected(reprojected(instant, there), back).zone == back,
        back == instant.zone ==> reprojected(reprojected(instant, there), back) == instant,
{
}

/// A text of none of the four shapes stands for no instant, whatever the zone.
pub proof fn shapeless_text_is_no_instant(zone: Zone, lowered: Seq<char>, now: WallClock)
    requires
        wall_clock_of(lowered, now) is None,
    ensures
        parsed_instant(zone, lowered, now) is None,
{
}

} // verus!
