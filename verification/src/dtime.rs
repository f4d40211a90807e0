//! A variant of the converter that reports one-based day numbers.
//!
//! [`DiscordianTime`] carries the same fields as
//! [`DiscordianDate`](crate::ddate::DiscordianDate), but `day` and `year_day`
//! start at one instead of zero; St. Tib's Day is reported as day one.
//! Season, weekday, week and year agree with the zero-based converter.

use vstd::prelude::*;
use crate::ddate::Day;
use crate::ddate::RangeError;
use crate::ddate::Season;
use crate::ddate::spec_convert;
use crate::ddate::spec_valid_day;

verus! {

/// A Discordian calendar date with one-based day numbers.
#[derive(Debug, PartialEq)]
pub struct DiscordianTime {
    /// Season of the Discordian year.
    pub season: Season,
    /// Day of the Discordian season, one-based.
    pub day: u8,
    /// Day of the Discordian year, one-based.
    pub year_day: u16,
    /// Discordian year, which includes a year zero.
    pub year: i32,
    /// Day of the Discordian week.
    pub week_day: Day,
    /// Week of the Discordian year, or `None` for St. Tib's Day.
    pub week: Option<u8>,
}

/// The one-based date for a valid `(nday, nyear)` pair: the zero-based date
/// with `day` and `year_day` shifted up by one.
pub open spec fn spec_convert_time(nday: int, nyear: int) -> DiscordianTime
    recommends
        spec_valid_day(nday, nyear),
        i32::MIN <= nyear + 1166 <= i32::MAX,
{
    let d = spec_convert(nday, nyear);
    DiscordianTime {
        season: d.season,
        day: (d.day + 1) as u8,
        year_day: (nday + 1) as u16,
        year: d.year,
        week_day: d.week_day,
        week: d.week,
    }
}

/// What `convert` returns: the one-based date for a valid ordinal day,
/// otherwise the range error naming the rejected day.
pub open spec fn spec_convert_time_result(nday: int, nyear: int) -> Result<
    DiscordianTime,
    RangeError,
>
    recommends
        0 <= nday,
        i32::MIN <= nyear + 1166 <= i32::MAX,
{
    if spec_valid_day(nday, nyear) {
        Ok(spec_convert_time(nday, nyear))
    } else {
        Err(RangeError { day: nday as u16 })
    }
}

/// Converts a year and an ordinal day to a one-based Discordian date.
///
/// # Arguments
/// * `nday` - Days after January 1st, starting at zero
/// * `nyear` - Astronomically numbered year, so there is a year zero
///
/// An ordinal day outside the year is reported as a [`RangeError`]; the
/// function never panics.
pub fn convert(nday: u16, nyear: i32) -> (r: Result<DiscordianTime, RangeError>)
    requires
        nyear + 1166 <= i32::MAX,
    ensures
        r == spec_convert_time_result(nday as int, nyear as int),
        r is Ok <==> spec_valid_day(nday as int, nyear as int),
{
    match crate::ddate::convert(nday, nyear) {
        Ok(d) => Ok(
            DiscordianTime {
                season: d.season,
                day: d.day + 1,
                year_day: d.year_day + 1,
                year: d.year,
                week_day: d.week_day,
                week: d.week,
            },
        ),
        Err(e) => Err(e),
    }
}

} // verus!
