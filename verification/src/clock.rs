//! The time of day in the zone the time-conditional steps are written for.

use chrono::Timelike;
use vstd::prelude::*;

verus! {

/// The hour and the minute that clocks in the zone `America/Mexico_City` show
/// at the instant `unix_millis` milliseconds after the Unix epoch, as chrono
/// and the zone table of chrono-tz give them; `None` where chrono cannot hold
/// the instant.
pub uninterp spec fn mexico_city_time(unix_millis: i64) -> Option<(u32, u32)>;

/// The minute of the day, counted from midnight, in the zone
/// `America/Mexico_City` at the instant `unix_millis`.
pub open spec fn mexico_city_minute_of_day(unix_millis: i64) -> Option<u32> {
    match mexico_city_time(unix_millis) {
        Some((hour, minute)) => if hour < 24 && minute < 60 {
            Some((hour * 60 + minute) as u32)
        } else {
            None
        },
        None => None,
    }
}

/// `chrono::DateTime::from_timestamp_millis`, `DateTime::with_timezone` with
/// `chrono_tz::America::Mexico_City`, then `Timelike::hour` and
/// `Timelike::minute`: the local hour, below 24, and minute, below 60, under
/// the name `mexico_city_time`. Believed of chrono and chrono-tz, not proved.
#[verifier::external_body]
fn mexico_city_clock(unix_millis: i64) -> (time: Option<(u32, u32)>)
    ensures
        time == mexico_city_time(unix_millis),
        time matches Some((hour, minute)) ==> hour < 24 && minute < 60,
{
    match chrono::DateTime::from_timestamp_millis(unix_millis) {
        Some(utc) => {
            let local = utc.with_timezone(&chrono_tz::America::Mexico_City);
            Some((local.hour(), local.minute()))
        },
        None => None,
    }
}

/// The minute of the day in the zone `America/Mexico_City` at the instant
/// `unix_millis`; `None` where the instant is out of the calendar's range.
pub fn mexico_city_minutes(unix_millis: i64) -> (minutes: Option<u32>)
    ensures
        minutes == mexico_city_minute_of_day(unix_millis),
        minutes matches Some(m) ==> m < 1440,
{
    match mexico_city_clock(unix_millis) {
        Some((hour, minute)) => Some(hour * 60 + minute),
        None => None,
    }
}

} // verus!
