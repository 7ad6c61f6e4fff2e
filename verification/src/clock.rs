//! Wall-clock readings and the timestamp the keyboard is sent.
//!
//! The keyboard's firmware takes the host's wall-clock fields as if they had
//! been read in a zone eight hours east of UTC, whatever zone the host is in.
//! Its display has no AM/PM flag: in twelve-hour mode the hour itself is
//! folded into `1..=12` before the timestamp is made, and the display is
//! right as long as the clock is set again near noon and near midnight.

use chrono::{FixedOffset, TimeZone};
use vstd::prelude::*;

verus! {

/// Seconds east of UTC of the zone the firmware assumes.
pub const DEVICE_UTC_OFFSET: i32 = 8 * 3600;

/// The first year of which every valid date and time has a timestamp.
pub const FIRST_YEAR: i32 = -262142;

/// The last year of which every valid date and time has a timestamp.
pub const LAST_YEAR: i32 = 262141;

/// One reading of a wall clock, field by field.
#[derive(Clone, Copy, Debug, PartialEq, Eq, Structural)]
pub struct WallClock {
    pub year: i32,
    pub month: u32,
    pub day: u32,
    pub hour: u32,
    pub minute: u32,
    pub second: u32,
}

/// Leap years of the proleptic Gregorian calendar, year 0 included.
pub open spec fn is_leap_year(year: int) -> bool {
    year % 4 == 0 && (year % 100 != 0 || year % 400 == 0)
}

/// The number of days of a month, for `month` in `1..=12`.
pub open spec fn days_in_month(year: int, month: int) -> int {
    if month == 2 {
        if is_leap_year(year) {
            29
        } else {
            28
        }
    } else if month == 4 || month == 6 || month == 9 || month == 11 {
        30
    } else {
        31
    }
}

/// The fields name a day of the calendar and a second of that day.
pub open spec fn is_civil_time(
    year: i32,
    month: u32,
    day: u32,
    hour: u32,
    minute: u32,
    second: u32,
) -> bool {
    &&& 1 <= month <= 12
    &&& 1 <= day <= days_in_month(year as int, month as int)
    &&& hour < 24
    &&& minute < 60
    &&& second < 60
}

/// An offset that a zone can have: less than a day either way.
pub open spec fn is_zone_offset(offset_seconds: i32) -> bool {
    -86_400 < offset_seconds < 86_400
}

/// The Unix timestamp of the given civil time in the zone `offset_seconds`
/// east of UTC, as chrono computes it; `None` where chrono has none.
pub uninterp spec fn zoned_timestamp(
    offset_seconds: i32,
    year: i32,
    month: u32,
    day: u32,
    hour: u32,
    minute: u32,
    second: u32,
) -> Option<i64>;

/// The hour that is sent for the hour `hour` of the day: in twelve-hour mode
/// midnight becomes 12 and the afternoon hours start over at 1.
pub open spec fn shown_hour(hour: u32, am_pm: bool) -> u32 {
    if !am_pm {
        hour
    } else if hour == 0 {
        12
    } else if 13 <= hour <= 23 {
        (hour - 12) as u32
    } else {
        hour
    }
}

impl WallClock {
    /// The reading names a real day and a real second of it.
    pub open spec fn is_valid(self) -> bool {
        is_civil_time(self.year, self.month, self.day, self.hour, self.minute, self.second)
    }

    /// The reading is valid and its year is one for which a timestamp is
    /// promised.
    pub open spec fn is_supported(self) -> bool {
        self.is_valid() && FIRST_YEAR <= self.year <= LAST_YEAR
    }

    /// The same reading with another hour.
    pub open spec fn at_hour(self, hour: u32) -> WallClock {
        WallClock {
            year: self.year,
            month: self.month,
            day: self.day,
            hour,
            minute: self.minute,
            second: self.second,
        }
    }

    /// The Unix timestamp of this reading taken as a time in the firmware's
    /// zone, whatever zone it was read in.
    pub open spec fn zone_time(self) -> Option<i64> {
        zoned_timestamp(
            DEVICE_UTC_OFFSET,
            self.year,
            self.month,
            self.day,
            self.hour,
            self.minute,
            self.second,
        )
    }

    /// The timestamp that is sent for this reading: that of the reading with
    /// its hour as it is shown.
    pub open spec fn device_time(self, am_pm: bool) -> Option<i64> {
        self.at_hour(shown_hour(self.hour, am_pm)).zone_time()
    }
}

/// Calls chrono: `FixedOffset::east_opt` makes the zone,
/// `TimeZone::with_ymd_and_hms` the one time in it that the fields name
/// (`MappedLocalTime::single`), and `DateTime::timestamp` reads its seconds
/// since the Unix epoch.
///
/// Believed, not proved: the result depends on the arguments alone; it is
/// `None` when the offset is a day or more or when the fields name no civil
/// time; and it is `Some` for every civil time of the years `FIRST_YEAR` to
/// `LAST_YEAR`, which lie one year inside the range of chrono's dates, so
/// that the shift to UTC cannot leave that range.
#[verifier::external_body]
fn timestamp_in_zone(
    offset_seconds: i32,
    year: i32,
    month: u32,
    day: u32,
    hour: u32,
    minute: u32,
    second: u32,
) -> (timestamp: Option<i64>)
    ensures
        timestamp == zoned_timestamp(offset_seconds, year, month, day, hour, minute, second),
        is_zone_offset(offset_seconds) && FIRST_YEAR <= year <= LAST_YEAR && is_civil_time(
            year,
            month,
            day,
            hour,
            minute,
            second,
        ) ==> timestamp is Some,
        !is_zone_offset(offset_seconds) || !is_civil_time(year, month, day, hour, minute, second)
            ==> timestamp is None,
{
    let zone = FixedOffset::east_opt(offset_seconds)?;
    let time = zone.with_ymd_and_hms(year, month, day, hour, minute, second).single()?;
    Some(time.timestamp())
}

/// The hour that is sent for the hour `hour` of the day.
pub fn display_hour(hour: u32, am_pm: bool) -> (shown: u32)
    ensures
        shown == shown_hour(hour, am_pm),
        !am_pm ==> shown == hour,
        am_pm && hour < 24 ==> 1 <= shown <= 12,
        hour < 24 <==> shown < 24,
{
    if am_pm {
        if hour == 0 {
            12
        } else if 13 <= hour && hour <= 23 {
            hour - 12
        } else {
            hour
        }
    } else {
        hour
    }
}

/// The timestamp that is sent for the reading `now`, or `None` if the
/// reading has none. Every supported reading has one, and no invalid
/// reading does.
pub fn device_timestamp(now: &WallClock, am_pm: bool) -> (timestamp: Option<i64>)
    ensures
        timestamp == now.device_time(am_pm),
        now.is_supported() ==> timestamp is Some,
        !now.is_valid() ==> timestamp is None,
{
    let hour = display_hour(now.hour, am_pm);
    timestamp_in_zone(DEVICE_UTC_OFFSET, now.year, now.month, now.day, hour, now.minute, now.second)
}

} // verus!
