//! The Discordian calendar converter.
//!
//! A Gregorian ordinal day (zero-based day of the year) and an astronomical
//! year (a year zero exists) are turned into a [`DiscordianDate`]. The five
//! seasons partition the 365-day year into 73-day blocks; in leap years the
//! single extra day at ordinal 59 is the intercalary St. Tib's Day, which
//! belongs to no season and no weekday, and every later day behaves as if the
//! calendar had one day spliced out.
//!
//! `day` and `year_day` are reported zero-based.

use vstd::prelude::*;

verus! {

/// A day of the five-day Discordian week, plus the St. Tib's Day sentinel.
#[derive(Debug, PartialEq)]
pub enum Day {
    Sweetmorn,
    Boomtime,
    Pungenday,
    PricklePrickle,
    SettingOrange,
    StTibsDay,
}

/// A season of the Discordian year, plus the St. Tib's Day sentinel.
#[derive(Debug, PartialEq)]
pub enum Season {
    Chaos,
    Discord,
    Confusion,
    Bureaucracy,
    TheAftermath,
    StTibsDay,
}

/// A Discordian calendar date.
#[derive(Debug, PartialEq)]
pub struct DiscordianDate {
    /// Season of the Discordian year.
    pub season: Season,
    /// Day of the Discordian season, zero-based.
    pub day: u8,
    /// Day of the Discordian year, zero-based.
    pub year_day: u16,
    /// Discordian year, which includes a year zero.
    pub year: i32,
    /// Day of the Discordian week.
    pub week_day: Day,
    /// Week of the Discordian year, or `None` for St. Tib's Day.
    pub week: Option<u8>,
}

/// The ordinal day lay outside the year: the year has no day with this number.
#[derive(Debug, PartialEq)]
pub struct RangeError {
    /// The rejected ordinal day.
    pub day: u16,
}

/// The proleptic Gregorian leap-year rule: divisible by 4 and not by 100,
/// unless also divisible by 400.
pub open spec fn spec_is_leap(y: int) -> bool {
    (y % 4 == 0 && y % 100 != 0) || y % 400 == 0
}

/// Number of days in the Gregorian (and Discordian) year `y`.
pub open spec fn spec_year_len(y: int) -> int {
    if spec_is_leap(y) {
        366
    } else {
        365
    }
}

/// The ordinal day `nday` exists in year `nyear`.
pub open spec fn spec_valid_day(nday: int, nyear: int) -> bool {
    0 <= nday < spec_year_len(nyear)
}

/// The ordinal day `nday` of year `nyear` is the intercalary St. Tib's Day.
pub open spec fn spec_is_st_tibs(nday: int, nyear: int) -> bool {
    spec_is_leap(nyear) && nday == 59
}

/// Season-relative ordinal: in a leap year, days after St. Tib's Day are
/// shifted back by one, as if the intercalary day had been spliced out.
pub open spec fn spec_effective(nday: int, nyear: int) -> int {
    if spec_is_leap(nyear) && nday > 59 {
        nday - 1
    } else {
        nday
    }
}

/// The weekday of season-relative ordinal `n`: a cycle of period five.
pub open spec fn spec_week_day(n: int) -> Day {
    if n % 5 == 0 {
        Day::Sweetmorn
    } else if n % 5 == 1 {
        Day::Boomtime
    } else if n % 5 == 2 {
        Day::Pungenday
    } else if n % 5 == 3 {
        Day::PricklePrickle
    } else {
        Day::SettingOrange
    }
}

/// The season holding season-relative ordinal `e`: five 73-day blocks.
pub open spec fn spec_season(e: int) -> Season {
    if e < 73 {
        Season::Chaos
    } else if e < 146 {
        Season::Discord
    } else if e < 219 {
        Season::Confusion
    } else if e < 292 {
        Season::Bureaucracy
    } else {
        Season::TheAftermath
    }
}

/// The Discordian date for a valid `(nday, nyear)` pair.
pub open spec fn spec_convert(nday: int, nyear: int) -> DiscordianDate
    recommends
        spec_valid_day(nday, nyear),
        i32::MIN <= nyear + 1166 <= i32::MAX,
{
    if spec_is_st_tibs(nday, nyear) {
        DiscordianDate {
            season: Season::StTibsDay,
            day: 0,
            year_day: nday as u16,
            year: (nyear + 1166) as i32,
            week_day: Day::StTibsDay,
            week: None,
        }
    } else {
        let e = spec_effective(nday, nyear);
        DiscordianDate {
            season: spec_season(e),
            day: (e % 73) as u8,
            year_day: nday as u16,
            year: (nyear + 1166) as i32,
            week_day: spec_week_day(e),
            week: Some((e / 5) as u8),
        }
    }
}

/// What `convert` returns: the date for a valid ordinal day, otherwise the
/// range error naming the rejected day.
pub open spec fn spec_convert_result(nday: int, nyear: int) -> Result<DiscordianDate, RangeError>
    recommends
        0 <= nday,
        i32::MIN <= nyear + 1166 <= i32::MAX,
{
    if spec_valid_day(nday, nyear) {
        Ok(spec_convert(nday, nyear))
    } else {
        Err(RangeError { day: nday as u16 })
    }
}

/// Decides whether `year` (astronomically numbered, so a year zero exists)
/// is a Gregorian leap year.
pub fn is_leap_year(year: i32) -> (r: bool)
    ensures
        r == spec_is_leap(year as int),
{
    let by4: i32 = year % 4;
    let by100: i32 = year % 100;
    let by400: i32 = year % 400;
    assert((by4 == 0) == ((year as int) % 4 == 0));
    assert((by100 == 0) == ((year as int) % 100 == 0));
    assert((by400 == 0) == ((year as int) % 400 == 0));
    (by4 == 0 && by100 != 0) || by400 == 0
}

/// The weekday for a season-relative ordinal day.
///
/// This function does not correct for St. Tib's Day: in a leap year a caller
/// must reduce every ordinal after St. Tib's Day by one first.
pub fn week_day(nday: u16) -> (d: Day)
    ensures
        d == spec_week_day(nday as int),
{
    match nday % 5 {
        0 => Day::Sweetmorn,
        1 => Day::Boomtime,
        2 => Day::Pungenday,
        3 => Day::PricklePrickle,
        _ => Day::SettingOrange,
    }
}

/// The season holding season-relative ordinal `e`.
fn season_of(e: u16) -> (s: Season)
    requires
        e < 365,
    ensures
        s == spec_season(e as int),
{
    if e < 73 {
        Season::Chaos
    } else if e < 146 {
        Season::Discord
    } else if e < 219 {
        Season::Confusion
    } else if e < 292 {
        Season::Bureaucracy
    } else {
        Season::TheAftermath
    }
}

/// Converts a year and an ordinal day to a Discordian date.
///
/// # Arguments
/// * `nday` - Days after January 1st, starting at zero
/// * `nyear` - Astronomically numbered year, so there is a year zero
///
/// An ordinal day outside the year (at least 365, or at least 366 in a leap
/// year) is reported as a [`RangeError`]; the function never panics.
pub fn convert(nday: u16, nyear: i32) -> (r: Result<DiscordianDate, RangeError>)
    requires
        nyear + 1166 <= i32::MAX,
    ensures
        r == spec_convert_result(nday as int, nyear as int),
        r is Ok <==> spec_valid_day(nday as int, nyear as int),
{
    let year: i32 = nyear + 1166;
    let year_day: u16 = nday;

    if !is_leap_year(nyear) {
        if nday >= 365 {
            return Err(RangeError { day: nday });
        }
        let season = season_of(nday);
        let week_day = week_day(nday);
        let day = (nday % 73) as u8;
        let week = Some((nday / 5) as u8);
        Ok(DiscordianDate { season, day, year_day, year, week_day, week })
    } else {
        if nday >= 366 {
            return Err(RangeError { day: nday });
        }
        if nday == 59 {
            return Ok(
                DiscordianDate {
                    season: Season::StTibsDay,
                    day: 0,
                    year_day,
                    year,
                    week_day: Day::StTibsDay,
                    week: None,
                },
            );
        }
        let e: u16 = if nday > 59 {
            nday - 1
        } else {
            nday
        };
        let season = season_of(e);
        let week_day = week_day(e);
        let day = (e % 73) as u8;
        let week = Some((e / 5) as u8);
        Ok(DiscordianDate { season, day, year_day, year, week_day, week })
    }
}

/// The weekday cycle has period five: five days on, the weekday repeats.
pub proof fn lemma_week_day_period(n: int)
    ensures
        spec_week_day(n + 5) == spec_week_day(n),
{
    assert((n + 5) % 5 == n % 5) by (nonlinear_arith);
}

/// Ordinal day zero is always the first day of Chaos, a Sweetmorn, in week
/// zero, whether or not the year is leap.
pub proof fn lemma_day_zero(y: int)
    ensures
        spec_convert(0, y).season == Season::Chaos,
        spec_convert(0, y).week_day == Day::Sweetmorn,
        spec_convert(0, y).week == Some(0u8),
        spec_convert(0, y).day == 0,
{
}

/// Ordinal day 59 is St. Tib's Day exactly in leap years; in a common year it
/// is an ordinary day of Chaos with its cyclic weekday.
pub proof fn lemma_st_tibs(y: int)
    ensures
        spec_convert(59, y).season == Season::StTibsDay <==> spec_is_leap(y),
        spec_is_leap(y) ==> spec_convert(59, y).week_day == Day::StTibsDay,
        spec_is_leap(y) ==> spec_convert(59, y).week is None,
        !spec_is_leap(y) ==> spec_convert(59, y).season == Season::Chaos,
        !spec_is_leap(y) ==> spec_convert(59, y).week_day == spec_week_day(59),
{
}

/// The last day of a leap year, ordinal 365, is the last day of The
/// Aftermath, a Setting Orange, in week 72.
pub proof fn lemma_leap_year_end(y: int)
    requires
        spec_is_leap(y),
    ensures
        spec_convert(365, y).season == Season::TheAftermath,
        spec_convert(365, y).week_day == Day::SettingOrange,
        spec_convert(365, y).week == Some(72u8),
        spec_convert(365, y).day == 72,
{
}

/// The Discordian year is always the astronomical year plus 1166.
pub proof fn lemma_year_offset(d: int, y: int)
    requires
        spec_valid_day(d, y),
        i32::MIN <= y + 1166 <= i32::MAX,
    ensures
        spec_convert(d, y).year == y + 1166,
{
}

} // verus!
